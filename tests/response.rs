use hackmd_api::response::{classify_response, ResponseClass};
use hackmd_api::text::{parse_unsigned, push_decimal};
use hackmd_api::ApiError;

#[test]
fn success_statuses() {
    assert!(matches!(classify_response(true, 200, None, None, None), ResponseClass::Success));
    assert!(matches!(classify_response(false, 204, None, None, None), ResponseClass::Success));
}

#[test]
fn unwrapped_failure_is_plain() {
    assert!(matches!(
        classify_response(false, 500, None, None, None),
        ResponseClass::StatusFailure
    ));
}

#[test]
fn rate_limit_reads_headers() {
    let r = classify_response(true, 429, Some("100"), Some("7"), Some("1700000000"));
    match r {
        ResponseClass::Failure(ApiError::TooManyRequests(e)) => {
            assert_eq!(e.code, 429);
            assert_eq!(e.status_text, "Too Many Requests");
            assert_eq!(e.message, "Too many requests (429 Too Many Requests)");
            assert_eq!(e.user_limit, 100);
            assert_eq!(e.user_remaining, 7);
            assert_eq!(e.reset_after, Some(1_700_000_000));
        }
        other => panic!("unexpected {:?}", other),
    }
}

#[test]
fn rate_limit_defaults_missing_or_bad_headers() {
    let r = classify_response(true, 429, None, Some("x1"), Some("-3"));
    match r {
        ResponseClass::Failure(ApiError::TooManyRequests(e)) => {
            assert_eq!(e.user_limit, 0);
            assert_eq!(e.user_remaining, 0);
            assert_eq!(e.reset_after, None);
        }
        other => panic!("unexpected {:?}", other),
    }
}

#[test]
fn server_error_status() {
    match classify_response(true, 503, None, None, None) {
        ResponseClass::Failure(ApiError::InternalServer(e)) => {
            assert_eq!(e.code, 503);
            assert_eq!(e.status_text, "Service Unavailable");
            assert_eq!(e.message, "HackMD internal error (503 Service Unavailable)");
        }
        other => panic!("unexpected {:?}", other),
    }
}

#[test]
fn other_failure_status() {
    match classify_response(true, 404, None, None, None) {
        ResponseClass::Failure(ApiError::HttpResponse(e)) => {
            assert_eq!(e.code, 404);
            assert_eq!(e.status_text, "Not Found");
            assert_eq!(e.message, "Received an error response (404 Not Found) from HackMD");
        }
        other => panic!("unexpected {:?}", other),
    }
}

#[test]
fn unknown_status_text() {
    match classify_response(true, 599, None, None, None) {
        ResponseClass::Failure(ApiError::InternalServer(e)) => {
            assert_eq!(e.status_text, "Unknown");
            assert_eq!(e.message, "HackMD internal error (599 Unknown)");
        }
        other => panic!("unexpected {:?}", other),
    }
}

#[test]
fn parse_unsigned_cases() {
    assert_eq!(parse_unsigned("0", 10), Some(0));
    assert_eq!(parse_unsigned("+42", 100), Some(42));
    assert_eq!(parse_unsigned("4294967295", u32::MAX as u64), Some(4294967295));
    assert_eq!(parse_unsigned("4294967296", u32::MAX as u64), None);
    assert_eq!(parse_unsigned("18446744073709551615", u64::MAX), Some(u64::MAX));
    assert_eq!(parse_unsigned("18446744073709551616", u64::MAX), None);
    assert_eq!(parse_unsigned("", 10), None);
    assert_eq!(parse_unsigned("+", 10), None);
    assert_eq!(parse_unsigned("-1", 10), None);
    assert_eq!(parse_unsigned(" 1", 10), None);
    assert_eq!(parse_unsigned("12a", 100), None);
}

#[test]
fn decimal_text() {
    let mut s = String::from("n=");
    push_decimal(&mut s, 0);
    assert_eq!(s, "n=0");
    let mut t = String::new();
    push_decimal(&mut t, 18446744073709551615);
    assert_eq!(t, "18446744073709551615");
}
