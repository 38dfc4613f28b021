//! Tests for the JSON encoders, checked against an independent JSON parser.

use ferinth::json::{json_encode_nested, json_encode_str_list, json_encode_string};

#[test]
fn encodes_plain_strings() {
    assert_eq!(json_encode_string("sodium"), "\"sodium\"");
    assert_eq!(json_encode_string(""), "\"\"");
}

#[test]
fn escapes_quotes_backslashes_and_controls() {
    assert_eq!(json_encode_string("say \"hi\""), "\"say \\\"hi\\\"\"");
    assert_eq!(json_encode_string("a\\b"), "\"a\\\\b\"");
    assert_eq!(json_encode_string("line\nbreak"), "\"line\\u000Abreak\"");
    assert_eq!(json_encode_string("tab\there"), "\"tab\\u0009here\"");
}

#[test]
fn encoded_strings_parse_back() {
    let samples = [
        "plain",
        "",
        "with \"quotes\" and \\slashes\\",
        "control\u{1}\u{1f}chars\r\n",
        "unicode \u{fc} \u{65e5}\u{672c}\u{8a9e}",
    ];
    for s in samples {
        let encoded = json_encode_string(s);
        let decoded: String = serde_json::from_str(&encoded).expect("must parse");
        assert_eq!(decoded, s);
    }
}

#[test]
fn encoded_lists_parse_back() {
    let ids = ["sodium", "AANobbMI", "we\"ird"];
    let encoded = json_encode_str_list(&ids);
    let decoded: Vec<String> = serde_json::from_str(&encoded).expect("must parse");
    assert_eq!(decoded, ids.map(|s| s.to_string()).to_vec());

    let empty: [&str; 0] = [];
    assert_eq!(json_encode_str_list(&empty), "[]");
}

#[test]
fn encoded_nested_lists_parse_back() {
    let groups = vec![
        vec!["versions:1.18.2".to_string(), "categories:quilt".to_string()],
        vec!["categories:fabric".to_string()],
        vec![],
    ];
    let encoded = json_encode_nested(&groups);
    let decoded: Vec<Vec<String>> = serde_json::from_str(&encoded).expect("must parse");
    assert_eq!(decoded, groups);
    assert_eq!(
        encoded,
        "[[\"versions:1.18.2\",\"categories:quilt\"],[\"categories:fabric\"],[]]"
    );
}

/// A well-formed JSON body of the expected shape decodes; a well-formed body
/// of an unexpected shape fails with a decode error rather than a default.
#[test]
fn unexpected_shapes_fail_decoding() {
    assert!(serde_json::from_str::<Vec<String>>("[\"a\",\"b\"]").is_ok());
    assert!(serde_json::from_str::<Vec<String>>("[1,2]").is_err());
    assert!(serde_json::from_str::<Vec<String>>("{\"hits\":[]}").is_err());
    assert!(serde_json::from_str::<Vec<Vec<String>>>("[\"a\"]").is_err());
}
