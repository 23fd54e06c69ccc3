use elkato_api::urls::make_url;
use elkato_api::{CorsProxy, Credentials, UrlParts};

fn demo_credentials() -> Credentials {
    Credentials {
        username: "demo".to_string(),
        password: "demo".to_string(),
        club: "demo".to_string(),
    }
}

fn parts(scheme: &str, host: &str, path: &str, query: &[(&str, &str)]) -> UrlParts {
    UrlParts {
        scheme: scheme.to_string(),
        host: host.to_string(),
        path: path.to_string(),
        query: query
            .iter()
            .map(|(k, v)| (k.to_string(), v.to_string()))
            .collect(),
    }
}

#[test]
fn full_string_percent_encodes_query() {
    let u = parts("http", "example.com", "/x", &[("a b", "c&d")]);
    assert_eq!(u.full_string(), "http://example.com/x?a+b=c%26d");
}

#[test]
fn full_string_without_query() {
    let u = parts("http", "h", "/p", &[]);
    assert_eq!(u.full_string(), "http://h/p");
}

#[test]
fn apply_direct_returns_target_unchanged() {
    let target = parts("http", "h", "/p", &[("x", "y")]);
    let r = CorsProxy::Direct.apply(&target);
    assert_eq!(r, target);
}

#[test]
fn apply_prepend_puts_target_in_path() {
    let target = parts("http", "h", "/p", &[("x", "y")]);
    let relay = parts("http", "localhost:9999", "/", &[]);
    let r = CorsProxy::Prepend(relay).apply(&target);
    assert_eq!(r.scheme, "http");
    assert_eq!(r.host, "localhost:9999");
    assert_eq!(r.path, "http://h/p?x=y");
    assert!(r.query.is_empty());
}

#[test]
fn apply_query_puts_target_in_sole_parameter() {
    let target = parts("http", "h", "/p", &[("x", "y")]);
    let relay = parts("https", "relay.example", "/proxy.php", &[("keep", "out")]);
    let r = CorsProxy::Query {
        url: relay,
        parameter: "url".to_string(),
    }
    .apply(&target);
    assert_eq!(r.scheme, "https");
    assert_eq!(r.host, "relay.example");
    assert_eq!(r.path, "/proxy.php");
    assert_eq!(r.query, vec![("url".to_string(), "http://h/p?x=y".to_string())]);
    assert_eq!(
        r.full_string(),
        "https://relay.example/proxy.php?url=http%3A%2F%2Fh%2Fp%3Fx%3Dy"
    );
}

#[test]
fn make_url_builds_deep_link() {
    let base = parts("https", "www.elkato.de", "/buchung/", &[]);
    let link = make_url("42", &base, &demo_credentials());
    assert_eq!(link.scheme, "https");
    assert_eq!(link.host, "www.elkato.de");
    assert_eq!(link.path, "/buchung/view_entry.php");
    assert_eq!(
        link.query,
        vec![
            ("club".to_string(), "demo".to_string()),
            ("id".to_string(), "42".to_string()),
        ]
    );
    assert_eq!(
        link.full_string(),
        "https://www.elkato.de/buchung/view_entry.php?club=demo&id=42"
    );
}

#[test]
fn full_string_agrees_with_the_url_crate() {
    // the rendered string parses back, through the url crate, to the
    // same parts it was built from
    let u = parts(
        "http",
        "example.com:8080",
        "/buchung/search.php",
        &[("club", "demo"), ("note", "a b&c")],
    );
    let parsed = url::Url::parse(&u.full_string()).unwrap();
    assert_eq!(parsed.scheme(), "http");
    assert_eq!(parsed.host_str(), Some("example.com"));
    assert_eq!(parsed.port(), Some(8080));
    assert_eq!(parsed.path(), "/buchung/search.php");
    let pairs: Vec<(String, String)> = parsed
        .query_pairs()
        .map(|(k, v)| (k.into_owned(), v.into_owned()))
        .collect();
    assert_eq!(
        pairs,
        vec![
            ("club".to_string(), "demo".to_string()),
            ("note".to_string(), "a b&c".to_string()),
        ]
    );
}
