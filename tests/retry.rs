use hackmd_api::error::{HttpResponseError, InternalServerError, TooManyRequestsError};
use hackmd_api::retry::{exponential_backoff, is_retryable_error, next_step, RetryStep};
use hackmd_api::{ApiError, RetryOptions};

fn server_error() -> ApiError {
    ApiError::InternalServer(InternalServerError {
        message: "HackMD internal error (500 Internal Server Error)".to_string(),
        code: 500,
        status_text: "Internal Server Error".to_string(),
    })
}

fn rate_limited(remaining: u32) -> ApiError {
    ApiError::TooManyRequests(TooManyRequestsError {
        message: "Too many requests (429 Too Many Requests)".to_string(),
        code: 429,
        status_text: "Too Many Requests".to_string(),
        user_limit: 100,
        user_remaining: remaining,
        reset_after: None,
    })
}

fn not_found() -> ApiError {
    ApiError::HttpResponse(HttpResponseError {
        message: "Received an error response (404 Not Found) from HackMD".to_string(),
        code: 404,
        status_text: "Not Found".to_string(),
    })
}

#[test]
fn backoff_doubles_from_the_base() {
    assert_eq!(exponential_backoff(0, 100), 100);
    assert_eq!(exponential_backoff(1, 100), 200);
    assert_eq!(exponential_backoff(3, 100), 800);
    assert_eq!(exponential_backoff(10, 0), 0);
}

#[test]
fn backoff_saturates() {
    assert_eq!(exponential_backoff(64, 1), u64::MAX);
    assert_eq!(exponential_backoff(63, 1), 1u64 << 63);
    assert_eq!(exponential_backoff(u32::MAX, 3), u64::MAX);
}

#[test]
fn retryable_classes() {
    assert!(is_retryable_error(&server_error()));
    assert!(is_retryable_error(&rate_limited(1)));
    assert!(!is_retryable_error(&rate_limited(0)));
    assert!(!is_retryable_error(&not_found()));
}

/// Drives the decisions over a scripted list of outcomes, counting attempts
/// and the time waited.
fn run(policy: Option<RetryOptions>, outcomes: Vec<Option<ApiError>>) -> (u32, u64, Option<ApiError>) {
    let mut waited = 0u64;
    let mut attempt = 0u32;
    for outcome in outcomes {
        match outcome {
            None => return (attempt + 1, waited, None),
            Some(e) => match next_step(&policy, attempt, &e) {
                RetryStep::Retry { delay_ms } => {
                    waited += delay_ms;
                    attempt += 1;
                }
                RetryStep::GiveUp => return (attempt + 1, waited, Some(e)),
            },
        }
    }
    panic!("ran out of outcomes")
}

#[test]
fn recovers_after_server_errors() {
    let policy = Some(RetryOptions { max_retries: 3, base_delay_ms: 10 });
    let outcomes = vec![Some(server_error()), Some(server_error()), Some(server_error()), None];
    let (attempts, waited, err) = run(policy, outcomes);
    assert_eq!(attempts, 4);
    assert_eq!(waited, 10 + 20 + 40);
    assert!(err.is_none());
}

#[test]
fn exhausted_retries_return_last_error() {
    let policy = Some(RetryOptions { max_retries: 2, base_delay_ms: 10 });
    let last = ApiError::InternalServer(InternalServerError {
        message: "last".to_string(),
        code: 503,
        status_text: "Service Unavailable".to_string(),
    });
    let outcomes = vec![Some(server_error()), Some(server_error()), Some(last), None];
    let (attempts, waited, err) = run(policy, outcomes);
    assert_eq!(attempts, 3);
    assert_eq!(waited, 30);
    match err {
        Some(ApiError::InternalServer(e)) => {
            assert_eq!(e.code, 503);
            assert_eq!(e.message, "last");
        }
        _ => panic!("expected the last server error"),
    }
}

#[test]
fn exhausted_quota_is_not_retried() {
    let policy = Some(RetryOptions { max_retries: 5, base_delay_ms: 10 });
    let (attempts, waited, err) = run(policy, vec![Some(rate_limited(0)), None]);
    assert_eq!(attempts, 1);
    assert_eq!(waited, 0);
    assert!(matches!(err, Some(ApiError::TooManyRequests(_))));
    let (attempts, _, err) = run(policy, vec![Some(rate_limited(2)), None]);
    assert_eq!(attempts, 2);
    assert!(err.is_none());
}

#[test]
fn http_error_is_not_retried() {
    let policy = Some(RetryOptions { max_retries: 100, base_delay_ms: 1 });
    let (attempts, waited, err) = run(policy, vec![Some(not_found()), None]);
    assert_eq!(attempts, 1);
    assert_eq!(waited, 0);
    assert!(matches!(err, Some(ApiError::HttpResponse(e)) if e.code == 404));
}

#[test]
fn no_policy_means_one_attempt() {
    for e in [server_error(), rate_limited(5), not_found()] {
        assert_eq!(next_step(&None, 0, &e), RetryStep::GiveUp);
    }
    let (attempts, _, err) = run(None, vec![Some(server_error()), None]);
    assert_eq!(attempts, 1);
    assert!(err.is_some());
}

#[test]
fn retry_delay_grows_with_the_attempt() {
    let policy = Some(RetryOptions { max_retries: 4, base_delay_ms: 50 });
    assert_eq!(next_step(&policy, 0, &server_error()), RetryStep::Retry { delay_ms: 50 });
    assert_eq!(next_step(&policy, 2, &server_error()), RetryStep::Retry { delay_ms: 200 });
    assert_eq!(next_step(&policy, 4, &server_error()), RetryStep::GiveUp);
}
