use elkato_api::{
    Api, Booking, BookingState, CorsProxy, Credentials, Date, ListOptions, ListResponse, Paging,
    UrlParts,
};

fn parts(scheme: &str, host: &str, path: &str) -> UrlParts {
    UrlParts {
        scheme: scheme.to_string(),
        host: host.to_string(),
        path: path.to_string(),
        query: Vec::new(),
    }
}

fn demo_credentials() -> Credentials {
    Credentials {
        username: "demo".to_string(),
        password: "demo".to_string(),
        club: "demo".to_string(),
    }
}

fn demo_api() -> Api {
    Api::new(
        parts("http", "example.com", "/buchung/"),
        CorsProxy::Prepend(parts("http", "localhost:9999", "/")),
        demo_credentials(),
    )
}

fn demo_options() -> ListOptions {
    ListOptions {
        owner: Some("demo".to_string()),
        start_from: Some(Date { year: 2024, month: 2, day: 27 }),
        end_to: Some(Date { year: 2024, month: 3, day: 12 }),
        ..Default::default()
    }
}

fn stub_booking(id: &str) -> Booking {
    Booking {
        id: id.to_string(),
        resource: "Boat A".to_string(),
        user: "demo".to_string(),
        start: 1709645400,
        end: 1709650800,
        description: String::new(),
        location: None,
    }
}

fn page(paging: Option<Paging>, ids: &[&str]) -> ListResponse {
    ListResponse { paging, bookings: ids.iter().map(|id| stub_booking(id)).collect() }
}

#[test]
fn listing_starts_at_offset_zero_through_relay() {
    let listing = demo_api().list_bookings(demo_options());
    let url = listing.next_url().unwrap();
    assert_eq!(url.scheme, "http");
    assert_eq!(url.host, "localhost:9999");
    assert!(url.query.is_empty());
    assert!(url.path.starts_with("http://example.com/buchung/search.php?"));
    assert!(url.path.contains("club=demo"));
    assert!(url.path.contains("search_pos=0"));
    assert!(url.path.contains("sel_owner=demo"));
    assert!(url.path.contains("active=on"));
    assert!(!url.path.contains("inactive=on"));
    assert!(url.path.contains("s_from=1"));
    assert!(url.path.contains("s_from_day=27"));
    assert!(url.path.contains("s_from_month=2"));
    assert!(url.path.contains("s_from_year=2024"));
    assert!(url.path.contains("s_to=0"));
    assert!(url.path.contains("e_from=0"));
    assert!(url.path.contains("e_to=1"));
}

#[test]
fn cursor_advances_to_its_to_value_and_stops_on_exhaustion() {
    let mut listing = demo_api().list_bookings(demo_options());
    let mut collected: Vec<Booking> = Vec::new();

    let out = listing.feed_response(page(Some(Paging { from: 0, to: 25, total: 50 }), &["1", "2"]));
    collected.extend(out);
    let url = listing.next_url().unwrap();
    assert!(url.path.contains("search_pos=25"));

    let out = listing.feed_response(page(Some(Paging { from: 25, to: 50, total: 50 }), &["3"]));
    collected.extend(out);
    assert!(listing.next_url().is_none());

    // document order within each page is preserved across the concatenation
    let ids: Vec<&str> = collected.iter().map(|b| b.id.as_str()).collect();
    assert_eq!(ids, vec!["1", "2", "3"]);
}

#[test]
fn missing_cursor_ends_the_listing() {
    let mut listing = demo_api().list_bookings(demo_options());
    let out = listing.feed_response(page(None, &["1"]));
    assert_eq!(out.len(), 1);
    assert!(listing.next_url().is_none());
}

#[test]
fn feed_response_enriches_with_deep_links() {
    let mut listing = demo_api().list_bookings(demo_options());
    let out = listing.feed_response(page(None, &["42"]));
    let location = out[0].location.as_ref().unwrap();
    assert_eq!(
        location.full_string(),
        "http://example.com/buchung/view_entry.php?club=demo&id=42"
    );
    // everything else carries over unchanged
    assert_eq!(out[0].id, "42");
    assert_eq!(out[0].start, 1709645400);
}

#[test]
fn feed_page_parses_enriches_and_terminates() {
    let body = "<html><body><div id=\"pageBody\">\
                <table bordercolor=\"#000000\"><tr>\
                <td>7</td><td>Boat B</td><td>demo</td><td>x</td>\
                <td>05.03.24, 14:30</td><td>x</td><td>05.03.24, 16:00</td>\
                <td>1:30</td><td>x</td><td>Evening trip</td>\
                </tr></table></div></body></html>";
    let mut listing = demo_api().list_bookings(demo_options());
    let out = listing.feed_page(body).unwrap();
    assert_eq!(out.len(), 1);
    assert_eq!(out[0].id, "7");
    assert_eq!(
        out[0].location.as_ref().unwrap().full_string(),
        "http://example.com/buchung/view_entry.php?club=demo&id=7"
    );
    // no page reports a cursor, so the listing ends after one page
    assert!(listing.next_url().is_none());
}

#[test]
fn feed_page_error_terminates_the_listing() {
    let body = "<html><body><div id=\"pageBody\">\
                <table bordercolor=\"#000000\"><tr>\
                <td>7</td><td>r</td><td>u</td><td>x</td>\
                <td>garbled</td><td>x</td><td>05.03.24, 16:00</td>\
                <td>d</td><td>x</td><td>desc</td>\
                </tr></table></div></body></html>";
    let mut listing = demo_api().list_bookings(demo_options());
    assert!(listing.feed_page(body).is_err());
    assert!(listing.next_url().is_none());
}

#[test]
fn no_hits_page_yields_no_bookings_and_ends() {
    let body = "<html><body><B>Die Suche ergab keine Treffer!</B></body></html>";
    let mut listing = demo_api().list_bookings(demo_options());
    let out = listing.feed_page(body).unwrap();
    assert!(out.is_empty());
    assert!(listing.next_url().is_none());
}

#[test]
fn state_all_reaches_the_request_url() {
    let api = demo_api();
    let listing = api.list_bookings(ListOptions { state: BookingState::All, ..Default::default() });
    let url = listing.next_url().unwrap();
    assert!(url.path.contains("active=on"));
    assert!(url.path.contains("inactive=on"));
}

#[test]
fn booking_is_active_between_start_and_end() {
    let b = stub_booking("1");
    assert!(!b.is_active(b.start - 1));
    assert!(b.is_active(b.start));
    assert!(b.is_active(b.start + 60));
    assert!(b.is_active(b.end));
    assert!(!b.is_active(b.end + 1));
}
