//! Tests for URL construction: exact rendering, and the round trip of the
//! query string through an independent URL parser.

use ferinth::percent::parse_query_str;
use ferinth::strutil::usize_string;
use ferinth::url_ext::Url as ApiUrl;

fn built(base: &str, segments: &[&str], query: &[(&str, &str)]) -> String {
    let mut url = ApiUrl::new(base.to_owned());
    if !segments.is_empty() {
        url = url.join_all(segments.iter().map(|s| s.to_string()).collect());
    }
    for (k, v) in query {
        url = url.with_query(k, v);
    }
    url.render()
}

#[test]
fn renders_base_and_segments() {
    assert_eq!(
        built("https://api.modrinth.com/v2", &["project", "sodium"], &[]),
        "https://api.modrinth.com/v2/project/sodium"
    );
    assert_eq!(built("https://example.com", &[], &[]), "https://example.com");
}

#[test]
fn percent_encodes_path_segments() {
    assert_eq!(
        built("https://example.com", &["a b", "c/d"], &[]),
        "https://example.com/a%20b/c%2Fd"
    );
}

#[test]
fn renders_query_pairs() {
    assert_eq!(
        built("https://example.com", &["search"], &[("query", "sodium"), ("limit", "12")]),
        "https://example.com/search?query=sodium&limit=12"
    );
    assert_eq!(
        built("https://example.com", &[], &[("a b", "c&d")]),
        "https://example.com?a+b=c%26d"
    );
}

#[test]
fn numbers_render_in_decimal() {
    assert_eq!(usize_string(0), "0");
    assert_eq!(usize_string(7), "7");
    assert_eq!(usize_string(12345), "12345");
    assert_eq!(usize_string(usize::MAX), usize::MAX.to_string());
}

/// Decoding the constructed query with an independent parser returns the
/// original key/value pairs.
#[test]
fn query_string_round_trips() {
    let pairs: Vec<(String, String)> = vec![
        ("query".into(), "sodium shaders".into()),
        ("facets".into(), "[[\"categories: quilt\"]]".into()),
        ("plus".into(), "1+1=2".into()),
        ("empty".into(), "".into()),
        ("unicode".into(), "m\u{fc}nze \u{65e5}\u{672c}".into()),
        ("weird".into(), "a&b?c#d%e/f".into()),
    ];
    let mut url = ApiUrl::new("https://example.com".to_owned());
    url = url.join_all(vec!["search".to_owned()]);
    for (k, v) in &pairs {
        url = url.with_query(k, v);
    }
    let rendered = url.render();
    let parsed = url::Url::parse(&rendered).expect("rendered URL must parse");
    let decoded: Vec<(String, String)> = parsed
        .query_pairs()
        .map(|(k, v)| (k.into_owned(), v.into_owned()))
        .collect();
    assert_eq!(decoded, pairs);
}

/// Decoding the constructed query with the library's own decoder returns the
/// original key/value pairs, byte for byte.
#[test]
fn query_string_round_trips_through_the_library_decoder() {
    let pairs: Vec<(&str, &str)> = vec![
        ("query", "sodium shaders"),
        ("facets", "[[\"categories: quilt\"]]"),
        ("sym", "a&b=c%d+e?f"),
        ("empty", ""),
        ("uni", "m\u{fc}nze \u{65e5}\u{672c}"),
    ];
    let mut url = ApiUrl::new("https://example.com".to_owned());
    for (k, v) in &pairs {
        url = url.with_query(k, v);
    }
    let rendered = url.render();
    let query = rendered.split('?').nth(1).expect("a query part");
    let decoded = parse_query_str(query).expect("must be well formed");
    let expected: Vec<(Vec<u8>, Vec<u8>)> = pairs
        .iter()
        .map(|(k, v)| (k.as_bytes().to_vec(), v.as_bytes().to_vec()))
        .collect();
    assert_eq!(decoded, expected);
}

#[test]
fn malformed_query_strings_are_rejected() {
    assert_eq!(parse_query_str(""), Some(vec![]));
    assert_eq!(
        parse_query_str("k=%2Fv%2f"),
        Some(vec![(b"k".to_vec(), b"/v/".to_vec())])
    );
    assert!(parse_query_str("a").is_none());
    assert!(parse_query_str("a=b=c").is_none());
    assert!(parse_query_str("a=%zz").is_none());
    assert!(parse_query_str("a=%2").is_none());
    assert!(parse_query_str("k=v&").is_none());
    assert!(parse_query_str("a=b c").is_none());
}

/// The rendered URL is well formed: an independent parser sees exactly the
/// path segments and no stray query or fragment.
#[test]
fn rendered_urls_are_well_formed() {
    let mut url = ApiUrl::new("https://example.com".to_owned());
    url = url.join_all(vec!["a b".to_owned(), "c?d".to_owned(), "e#f".to_owned()]);
    let rendered = url.render();
    let parsed = url::Url::parse(&rendered).unwrap();
    assert_eq!(parsed.query(), None);
    assert_eq!(parsed.fragment(), None);
    let segments: Vec<String> = parsed
        .path_segments()
        .unwrap()
        .map(|s| s.to_string())
        .collect();
    assert_eq!(
        segments,
        vec!["a%20b".to_string(), "c%3Fd".to_string(), "e%23f".to_string()]
    );
}
