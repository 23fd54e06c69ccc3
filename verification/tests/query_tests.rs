use elkato_api::query::{build_query, date_filter_to_query, u64_to_string};
use elkato_api::{BookingState, Credentials, Date, ListOptions};

fn demo_credentials() -> Credentials {
    Credentials {
        username: "demo".to_string(),
        password: "demo".to_string(),
        club: "demo".to_string(),
    }
}

fn keys(q: &[(String, String)]) -> Vec<&str> {
    q.iter().map(|p| p.0.as_str()).collect()
}

fn value_of<'a>(q: &'a [(String, String)], key: &str) -> Option<&'a str> {
    q.iter().find(|p| p.0 == key).map(|p| p.1.as_str())
}

#[test]
fn u64_to_string_exact() {
    assert_eq!(u64_to_string(0), "0");
    assert_eq!(u64_to_string(7), "7");
    assert_eq!(u64_to_string(10), "10");
    assert_eq!(u64_to_string(45007), "45007");
    assert_eq!(u64_to_string(2024), "2024");
    assert_eq!(u64_to_string(u64::MAX), "18446744073709551615");
}

#[test]
fn date_filter_present_emits_flag_and_triple() {
    let d = Date { year: 2024, month: 3, day: 5 };
    let q = date_filter_to_query("s_from", Some(d));
    assert_eq!(
        q,
        vec![
            ("s_from".to_string(), "1".to_string()),
            ("s_from_day".to_string(), "5".to_string()),
            ("s_from_month".to_string(), "3".to_string()),
            ("s_from_year".to_string(), "2024".to_string()),
        ]
    );
}

#[test]
fn date_filter_absent_emits_flag_only() {
    let q = date_filter_to_query("e_to", None);
    assert_eq!(q, vec![("e_to".to_string(), "0".to_string())]);
}

#[test]
fn state_all_emits_both_flags() {
    let options = ListOptions { state: BookingState::All, ..Default::default() };
    let q = build_query(&demo_credentials(), 0, &options);
    assert_eq!(value_of(&q, "active"), Some("on"));
    assert_eq!(value_of(&q, "inactive"), Some("on"));
}

#[test]
fn state_active_emits_exactly_one_flag() {
    let options = ListOptions::default();
    let q = build_query(&demo_credentials(), 0, &options);
    assert_eq!(value_of(&q, "active"), Some("on"));
    assert_eq!(value_of(&q, "inactive"), None);
}

#[test]
fn state_inactive_emits_exactly_one_flag() {
    let options = ListOptions { state: BookingState::Inactive, ..Default::default() };
    let q = build_query(&demo_credentials(), 0, &options);
    assert_eq!(value_of(&q, "active"), None);
    assert_eq!(value_of(&q, "inactive"), Some("on"));
}

#[test]
fn full_query_layout() {
    let options = ListOptions {
        owner: Some("demo".to_string()),
        start_from: Some(Date { year: 2024, month: 3, day: 5 }),
        ..Default::default()
    };
    let q = build_query(&demo_credentials(), 25, &options);
    assert_eq!(
        keys(&q),
        vec![
            "club",
            "search_pos",
            "sel_room",
            "sel_booker",
            "sel_owner",
            "active",
            "s_from",
            "s_from_day",
            "s_from_month",
            "s_from_year",
            "s_to",
            "e_from",
            "e_to",
        ]
    );
    assert_eq!(value_of(&q, "club"), Some("demo"));
    assert_eq!(value_of(&q, "search_pos"), Some("25"));
    assert_eq!(value_of(&q, "sel_room"), Some("all"));
    assert_eq!(value_of(&q, "sel_booker"), Some("all"));
    assert_eq!(value_of(&q, "sel_owner"), Some("demo"));
    assert_eq!(value_of(&q, "s_from"), Some("1"));
    assert_eq!(value_of(&q, "s_to"), Some("0"));
    assert_eq!(value_of(&q, "e_from"), Some("0"));
    assert_eq!(value_of(&q, "e_to"), Some("0"));
}

#[test]
fn owner_defaults_to_all() {
    let q = build_query(&demo_credentials(), 0, &ListOptions::default());
    assert_eq!(value_of(&q, "sel_owner"), Some("all"));
}
