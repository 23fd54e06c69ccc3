use elkato_api::datetime::to_datetime;
use elkato_api::parser::parse_query;
use elkato_api::ParseError;

const NO_HITS: &str =
    "<html><body><div id=\"pageBody\"><B>Die Suche ergab keine Treffer!</B></div></body></html>";

fn page_with_rows(rows: &str) -> String {
    format!(
        "<html><body><div id=\"pageBody\">\
         <table bordercolor=\"#000000\">{}</table>\
         </div></body></html>",
        rows
    )
}

fn row(cells: &[&str]) -> String {
    let tds: String = cells.iter().map(|c| format!("<td>{}</td>", c)).collect();
    format!("<tr>{}</tr>", tds)
}

fn good_row() -> String {
    row(&[
        "42",
        "Boat A",
        "demo",
        "x",
        "05.03.24, 14:30",
        "x",
        "05.03.24, 16:00",
        "1:30",
        "x",
        "Trip upstream",
    ])
}

#[test]
fn no_hits_is_empty_result_not_error() {
    let r = parse_query(NO_HITS).unwrap();
    assert!(r.paging.is_none());
    assert!(r.bookings.is_empty());
}

#[test]
fn one_complete_row_yields_one_booking() {
    let body = page_with_rows(&good_row());
    let r = parse_query(&body).unwrap();
    assert!(r.paging.is_none());
    assert_eq!(r.bookings.len(), 1);
    let b = &r.bookings[0];
    assert_eq!(b.id, "42");
    assert_eq!(b.resource, "Boat A");
    assert_eq!(b.user, "demo");
    assert_eq!(b.description, "Trip upstream");
    // 2024-03-05 is winter time in Berlin (UTC+1)
    assert_eq!(b.start, 1709645400);
    assert_eq!(b.end, 1709650800);
    assert!(b.start <= b.end);
    assert!(b.location.is_none());
}

#[test]
fn short_row_is_skipped_silently() {
    let rows = format!("{}{}", good_row(), row(&["only", "two"]));
    let body = page_with_rows(&rows);
    let r = parse_query(&body).unwrap();
    assert_eq!(r.bookings.len(), 1);
    assert_eq!(r.bookings[0].id, "42");
}

#[test]
fn extra_cells_beyond_ten_are_ignored() {
    let long = row(&[
        "7",
        "Boat B",
        "demo",
        "x",
        "05.03.24, 14:30",
        "x",
        "05.03.24, 16:00",
        "1:30",
        "x",
        "Evening",
        "surplus",
        "cells",
    ]);
    let body = page_with_rows(&long);
    let r = parse_query(&body).unwrap();
    assert_eq!(r.bookings.len(), 1);
    assert_eq!(r.bookings[0].id, "7");
    assert_eq!(r.bookings[0].description, "Evening");
}

#[test]
fn document_without_table_yields_no_bookings() {
    let body = "<html><body><div id=\"pageBody\"><p>nothing here</p></div></body></html>";
    let r = parse_query(body).unwrap();
    assert!(r.paging.is_none());
    assert!(r.bookings.is_empty());
}

#[test]
fn bad_timestamp_in_complete_row_aborts_page() {
    let bad = row(&["1", "r", "u", "x", "not a date", "x", "05.03.24, 16:00", "d", "x", "desc"]);
    let body = page_with_rows(&format!("{}{}", good_row(), bad));
    assert_eq!(parse_query(&body).unwrap_err(), ParseError::InvalidTimestamp);
}

#[test]
fn gap_timestamp_aborts_page_as_nonexistent() {
    // 2024-03-31 02:30 falls into Berlin's spring-forward gap
    let bad = row(&[
        "1",
        "r",
        "u",
        "x",
        "31.03.24, 02:30",
        "x",
        "31.03.24, 04:00",
        "d",
        "x",
        "desc",
    ]);
    let body = page_with_rows(&bad);
    assert_eq!(parse_query(&body).unwrap_err(), ParseError::NonexistentLocalTime);
}

#[test]
fn to_datetime_winter_instant() {
    // 14:30 Berlin winter time is 13:30 UTC
    assert_eq!(to_datetime("05.03.24, 14:30"), Ok(1709645400));
}

#[test]
fn to_datetime_gap_fails() {
    assert_eq!(to_datetime("31.03.24, 02:30"), Err(ParseError::NonexistentLocalTime));
}

#[test]
fn to_datetime_ambiguous_picks_earlier() {
    // 2024-10-27 02:30 happens twice in Berlin; the earlier reading is
    // still summer time (UTC+2), i.e. 00:30 UTC
    assert_eq!(to_datetime("27.10.24, 02:30"), Ok(1729989000));
}

#[test]
fn to_datetime_rejects_malformed_text() {
    assert_eq!(to_datetime("5.3.24, 14:30"), Err(ParseError::InvalidTimestamp));
    assert_eq!(to_datetime("05.03.24 14:30"), Err(ParseError::InvalidTimestamp));
    assert_eq!(to_datetime(""), Err(ParseError::InvalidTimestamp));
    assert_eq!(to_datetime("31.02.24, 10:00"), Err(ParseError::InvalidTimestamp));
    assert_eq!(to_datetime("05.13.24, 10:00"), Err(ParseError::InvalidTimestamp));
    assert_eq!(to_datetime("05.03.24, 24:00"), Err(ParseError::InvalidTimestamp));
    assert_eq!(to_datetime("05.03.24, 14:60"), Err(ParseError::InvalidTimestamp));
}

#[test]
fn to_datetime_leap_day() {
    // 2024-02-29 exists; 12:00 Berlin winter time is 11:00 UTC
    assert_eq!(to_datetime("29.02.24, 12:00"), Ok(1709204400));
    // 2023-02-29 does not
    assert_eq!(to_datetime("29.02.23, 12:00"), Err(ParseError::InvalidTimestamp));
}
