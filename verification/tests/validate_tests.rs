//! Tests for the identifier validators.

use ferinth::validate::{check_id_slug, check_sha1_hash, valid_id_slug, valid_sha1_hash};
use ferinth::Error;

#[test]
fn accepts_ordinary_ids_and_slugs() {
    assert!(valid_id_slug("AANobbMI"));
    assert!(valid_id_slug("sodium"));
    assert!(valid_id_slug("ok-zoomer"));
    assert!(valid_id_slug("under_score"));
    assert!(valid_id_slug("abc"));
    assert!(valid_id_slug(&"x".repeat(64)));
    assert!(valid_id_slug("it's"));
    assert!(valid_id_slug("a+b,c.d"));
}

#[test]
fn rejects_bad_ids_and_slugs() {
    assert!(!valid_id_slug(""));
    assert!(!valid_id_slug("ab"));
    assert!(!valid_id_slug(&"x".repeat(65)));
    assert!(!valid_id_slug("has space"));
    assert!(!valid_id_slug("semi;colon"));
    assert!(!valid_id_slug("slash/slash"));
    assert!(!valid_id_slug("back\\slash"));
    assert!(!valid_id_slug("qu?estion"));
    assert!(!valid_id_slug("amper&sand"));
}

#[test]
fn check_id_slug_rejects_any_bad_input() {
    assert_eq!(check_id_slug(&["sodium", "AANobbMI"]), Ok(()));
    assert_eq!(
        check_id_slug(&["sodium", "has space"]),
        Err(Error::InvalidIDorSlug)
    );
    assert_eq!(check_id_slug(&["ab"]), Err(Error::InvalidIDorSlug));
    assert_eq!(check_id_slug(&[]), Ok(()));
}

#[test]
fn accepts_sha1_hashes() {
    assert!(valid_sha1_hash("795d4c12bffdb1b21eed5ff87c07ce5ca3c0dcbf"));
    assert!(valid_sha1_hash(&"0".repeat(40)));
    assert!(valid_sha1_hash(&"f".repeat(40)));
}

#[test]
fn rejects_bad_sha1_hashes() {
    assert!(!valid_sha1_hash(""));
    assert!(!valid_sha1_hash(&"a".repeat(39)));
    assert!(!valid_sha1_hash(&"a".repeat(41)));
    // uppercase hex is rejected
    assert!(!valid_sha1_hash("795D4C12BFFDB1B21EED5FF87C07CE5CA3C0DCBF"));
    // 'g' is not a hex digit
    assert!(!valid_sha1_hash(&"g".repeat(40)));
}

#[test]
fn check_sha1_hash_rejects_any_bad_input() {
    assert_eq!(
        check_sha1_hash(&["795d4c12bffdb1b21eed5ff87c07ce5ca3c0dcbf"]),
        Ok(())
    );
    assert_eq!(
        check_sha1_hash(&["795d4c12bffdb1b21eed5ff87c07ce5ca3c0dcbf", "short"]),
        Err(Error::InvalidSHA1)
    );
}

#[test]
fn id_slug_validator_agrees_with_platform_pattern() {
    let pattern = regex::Regex::new(r#"^[\w!@$()`.+,"\-']{3,64}$"#).unwrap();
    let samples = [
        "sodium",
        "AANobbMI",
        "ok-zoomer",
        "ab",
        "abc",
        "has space",
        "semi;colon",
        "under_score",
        "tick`ok",
        "plus+plus",
        "qu\"ote",
        "it's",
        "per%cent",
        "ampers&nd",
        "slash/slash",
        "\u{fc}nl\u{e4}ut\u{f6}",
        "\u{65e5}\u{672c}\u{8a9e}",
    ];
    for s in samples {
        assert_eq!(
            valid_id_slug(s),
            pattern.is_match(s),
            "disagreement on {:?}",
            s
        );
    }
    let long = "x".repeat(64);
    let too_long = "x".repeat(65);
    assert_eq!(valid_id_slug(&long), pattern.is_match(&long));
    assert_eq!(valid_id_slug(&too_long), pattern.is_match(&too_long));
}

#[test]
fn sha1_validator_agrees_with_hash_pattern() {
    let pattern = regex::Regex::new("^[a-f0-9]{40}$").unwrap();
    let samples = [
        "795d4c12bffdb1b21eed5ff87c07ce5ca3c0dcbf",
        "795D4C12BFFDB1B21EED5FF87C07CE5CA3C0DCBF",
        "795d4c12bffdb1b21eed5ff87c07ce5ca3c0dcb",
        "795d4c12bffdb1b21eed5ff87c07ce5ca3c0dcbff",
        "",
        "gggggggggggggggggggggggggggggggggggggggg",
    ];
    for s in samples {
        assert_eq!(
            valid_sha1_hash(s),
            pattern.is_match(s),
            "disagreement on {:?}",
            s
        );
    }
}
