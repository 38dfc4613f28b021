//! Tests for response classification and the reset-header parser.

use ferinth::rate_limit::{check_rate_limit, parse_seconds, process_status};
use ferinth::Error;

#[test]
fn rate_limited_with_header_carries_the_seconds() {
    assert_eq!(
        check_rate_limit(429, Some("60")),
        Err(Error::RateLimitExceeded(60))
    );
    assert_eq!(
        check_rate_limit(429, Some("0")),
        Err(Error::RateLimitExceeded(0))
    );
    assert_eq!(
        check_rate_limit(429, Some("007")),
        Err(Error::RateLimitExceeded(7))
    );
}

#[test]
fn rate_limited_with_bad_header_is_a_status_error() {
    assert_eq!(check_rate_limit(429, None), Err(Error::HttpStatus(429)));
    assert_eq!(check_rate_limit(429, Some("")), Err(Error::HttpStatus(429)));
    assert_eq!(
        check_rate_limit(429, Some("soon")),
        Err(Error::HttpStatus(429))
    );
    assert_eq!(
        check_rate_limit(429, Some("12a")),
        Err(Error::HttpStatus(429))
    );
    assert_eq!(
        check_rate_limit(429, Some("-5")),
        Err(Error::HttpStatus(429))
    );
    // far larger than any machine word
    assert_eq!(
        check_rate_limit(429, Some("99999999999999999999999999999999")),
        Err(Error::HttpStatus(429))
    );
}

#[test]
fn deprecated_api_is_reported() {
    assert_eq!(check_rate_limit(410, None), Err(Error::ApiDeprecated));
    assert_eq!(check_rate_limit(410, Some("60")), Err(Error::ApiDeprecated));
}

#[test]
fn other_statuses_pass_the_rate_limit_check() {
    assert_eq!(check_rate_limit(200, None), Ok(()));
    assert_eq!(check_rate_limit(404, None), Ok(()));
    assert_eq!(check_rate_limit(500, Some("60")), Ok(()));
}

#[test]
fn process_status_flags_error_statuses() {
    assert_eq!(process_status(200, None), Ok(()));
    assert_eq!(process_status(204, None), Ok(()));
    assert_eq!(process_status(302, None), Ok(()));
    assert_eq!(process_status(400, None), Err(Error::HttpStatus(400)));
    assert_eq!(process_status(404, None), Err(Error::HttpStatus(404)));
    assert_eq!(process_status(599, None), Err(Error::HttpStatus(599)));
    assert_eq!(process_status(410, None), Err(Error::ApiDeprecated));
    assert_eq!(
        process_status(429, Some("30")),
        Err(Error::RateLimitExceeded(30))
    );
}

#[test]
fn parse_seconds_accepts_digit_strings_only() {
    assert_eq!(parse_seconds("0"), Some(0));
    assert_eq!(parse_seconds("123"), Some(123));
    assert_eq!(parse_seconds("007"), Some(7));
    assert_eq!(parse_seconds(""), None);
    assert_eq!(parse_seconds("+1"), None);
    assert_eq!(parse_seconds(" 1"), None);
    assert_eq!(parse_seconds("1 "), None);
    assert_eq!(parse_seconds("12.5"), None);
    assert_eq!(parse_seconds(&usize::MAX.to_string()), Some(usize::MAX));
    // one past the largest machine word is rejected
    let too_big = (u128::from(u64::MAX) + 1).to_string();
    if usize::BITS == 64 {
        assert_eq!(parse_seconds(&too_big), None);
    }
}
