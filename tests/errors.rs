use hackmd_api::error::{
    HackMDError, HttpResponseError, InternalServerError, MissingRequiredArgument,
    TooManyRequestsError,
};
use hackmd_api::{ApiClient, ApiError};

#[test]
fn error_texts() {
    let e = ApiError::HttpResponse(HttpResponseError {
        message: "Received an error response (404 Not Found) from HackMD".to_string(),
        code: 404,
        status_text: "Not Found".to_string(),
    });
    assert_eq!(
        e.to_string(),
        "HTTP response error: Received an error response (404 Not Found) from HackMD (404)"
    );
    let e = ApiError::InternalServer(InternalServerError {
        message: "boom".to_string(),
        code: 502,
        status_text: "Bad Gateway".to_string(),
    });
    assert_eq!(e.to_string(), "Internal server error: boom (502)");
    let e = ApiError::MissingRequiredArgument(MissingRequiredArgument {
        message: "token".to_string(),
    });
    assert_eq!(e.to_string(), "Missing required argument: token");
    let e = ApiError::HackMD(HackMDError { message: "odd".to_string() });
    assert_eq!(e.to_string(), "HackMD error: odd");
}

#[test]
fn rate_limit_text() {
    let e = TooManyRequestsError {
        message: "Too many requests (429 Too Many Requests)".to_string(),
        code: 429,
        status_text: "Too Many Requests".to_string(),
        user_limit: 100,
        user_remaining: 0,
        reset_after: Some(5),
    };
    assert_eq!(
        e.to_string(),
        "Too many requests (429 Too Many Requests) (429): 0/100 requests remaining"
    );
    assert_eq!(
        ApiError::TooManyRequests(e).to_string(),
        "Too many requests: Too many requests (429 Too Many Requests) (429): 0/100 requests remaining"
    );
}

#[test]
fn foreign_error_text_keeps_kind() {
    match ApiClient::with_base_url("tok", "not a url") {
        Err(e) => {
            let text = e.to_string();
            assert!(text.starts_with("URL parse error: "));
            assert!(text.len() > "URL parse error: ".len());
        }
        Ok(_) => panic!("expected a URL error"),
    }
}
