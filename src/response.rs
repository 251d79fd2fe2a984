//! Classification of one HTTP response into success or an error kind.
use vstd::prelude::*;

use crate::error::{ApiError, HttpResponseError, InternalServerError, TooManyRequestsError};
use crate::text::{decimal_spec, parse_unsigned, parse_unsigned_spec, push_decimal};

verus! {

/// The standard reason phrase of an HTTP status code, where it has one.
pub uninterp spec fn reason_phrase(code: u16) -> Option<Seq<char>>;

/// Relies on reqwest::StatusCode::canonical_reason (with StatusCode::from_u16
/// to build the code): the reason phrase registered for the code, if any.
#[verifier::external_body]
fn canonical_reason(code: u16) -> (r: Option<String>)
    ensures
        match r {
            Some(t) => reason_phrase(code) == Some(t@),
            None => reason_phrase(code) is None,
        },
{
    reqwest::StatusCode::from_u16(code).ok().and_then(|s| s.canonical_reason()).map(
        |t| t.to_string(),
    )
}

pub const TOO_MANY_REQUESTS: u16 = 429;

pub open spec fn is_success_status(code: u16) -> bool {
    200 <= code <= 299
}

pub open spec fn is_server_error_status(code: u16) -> bool {
    500 <= code <= 599
}

/// The status text carried by an error: the reason phrase, or `Unknown`.
pub open spec fn status_text_spec(code: u16) -> Seq<char> {
    match reason_phrase(code) {
        Some(t) => t,
        None => "Unknown"@,
    }
}

/// `<prefix><code> <text><suffix>`.
pub open spec fn status_message_spec(
    prefix: Seq<char>,
    code: u16,
    text: Seq<char>,
    suffix: Seq<char>,
) -> Seq<char> {
    prefix + decimal_spec(code as nat) + " "@ + text + suffix
}

pub open spec fn header_view(h: Option<&str>) -> Option<Seq<char>> {
    match h {
        Some(t) => Some(t@),
        None => None,
    }
}

/// A quota header read as a number no greater than `max`, or 0 where it is
/// missing or unreadable.
pub open spec fn quota_spec(h: Option<Seq<char>>, max: nat) -> nat {
    match h {
        Some(t) => match parse_unsigned_spec(t, max) {
            Some(v) => v,
            None => 0,
        },
        None => 0,
    }
}

/// The reset header read as a `u64`; absent where missing or unreadable.
pub open spec fn reset_spec(h: Option<Seq<char>>) -> Option<u64> {
    match h {
        Some(t) => match parse_unsigned_spec(t, u64::MAX as nat) {
            Some(v) => Some(v as u64),
            None => None,
        },
        None => None,
    }
}

/// The error that a failed, classified response with status `code` stands for.
pub open spec fn classified_error_spec(
    e: ApiError,
    code: u16,
    limit: Option<Seq<char>>,
    remaining: Option<Seq<char>>,
    reset: Option<Seq<char>>,
) -> bool {
    let text = status_text_spec(code);
    if code == TOO_MANY_REQUESTS {
        &&& e matches ApiError::TooManyRequests(t)
        &&& t.code == code
        &&& t.status_text@ == text
        &&& t.message@ == status_message_spec("Too many requests ("@, code, text, ")"@)
        &&& t.user_limit as nat == quota_spec(limit, u32::MAX as nat)
        &&& t.user_remaining as nat == quota_spec(remaining, u32::MAX as nat)
        &&& t.reset_after == reset_spec(reset)
    } else if is_server_error_status(code) {
        &&& e matches ApiError::InternalServer(t)
        &&& t.code == code
        &&& t.status_text@ == text
        &&& t.message@ == status_message_spec("HackMD internal error ("@, code, text, ")"@)
    } else {
        &&& e matches ApiError::HttpResponse(t)
        &&& t.code == code
        &&& t.status_text@ == text
        &&& t.message@ == status_message_spec(
            "Received an error response ("@,
            code,
            text,
            ") from HackMD"@,
        )
    }
}

/// What became of one physical attempt, judged by its status line and headers.
#[derive(Debug)]
pub enum ResponseClass {
    /// A 2xx: the body is to be decoded.
    Success,
    /// A failure to be surfaced as the transport's own status error, as
    /// asked when rich classification is off.
    StatusFailure,
    /// A failure of one of the rich kinds.
    Failure(ApiError),
}

fn status_message(prefix: &str, code: u16, text: &str, suffix: &str) -> (r: String)
    ensures
        r@ == status_message_spec(prefix@, code, text@, suffix@),
{
    let mut r = String::new();
    r.append(prefix);
    push_decimal(&mut r, code as u64);
    proof {
        reveal_strlit(" ");
    }
    r.append(" ");
    r.append(text);
    r.append(suffix);
    assert(r@ =~= status_message_spec(prefix@, code, text@, suffix@));
    r
}

fn read_quota(h: Option<&str>, max: u64) -> (r: u64)
    ensures
        r as nat == quota_spec(header_view(h), max as nat),
        r <= max,
{
    match h {
        Some(t) => match parse_unsigned(t, max) {
            Some(v) => v,
            None => 0,
        },
        None => 0,
    }
}

/// Classifies a response by its status code and its rate-limit headers
/// (`x-ratelimit-userlimit`, `x-ratelimit-userremaining`,
/// `x-ratelimit-userreset`, each as text where present). With
/// `wrap_response_errors` off, a failure is only a failure.
pub fn classify_response(
    wrap_response_errors: bool,
    status: u16,
    user_limit: Option<&str>,
    user_remaining: Option<&str>,
    user_reset: Option<&str>,
) -> (r: ResponseClass)
    ensures
        is_success_status(status) <==> r is Success,
        !is_success_status(status) && !wrap_response_errors ==> r is StatusFailure,
        !is_success_status(status) && wrap_response_errors ==> match r {
            ResponseClass::Failure(e) => classified_error_spec(
                e,
                status,
                header_view(user_limit),
                header_view(user_remaining),
                header_view(user_reset),
            ),
            _ => false,
        },
{
    if 200 <= status && status <= 299 {
        return ResponseClass::Success;
    }
    if !wrap_response_errors {
        return ResponseClass::StatusFailure;
    }
    let status_text = match canonical_reason(status) {
        Some(t) => t,
        None => {
            proof {
                reveal_strlit("Unknown");
            }
            let mut t = String::new();
            t.append("Unknown");
            t
        },
    };
    proof {
        reveal_strlit("Too many requests (");
        reveal_strlit("HackMD internal error (");
        reveal_strlit("Received an error response (");
        reveal_strlit(")");
        reveal_strlit(") from HackMD");
    }
    if status == TOO_MANY_REQUESTS {
        let user_limit = read_quota(user_limit, u32::MAX as u64) as u32;
        let user_remaining = read_quota(user_remaining, u32::MAX as u64) as u32;
        let reset_after = match user_reset {
            Some(t) => parse_unsigned(t, u64::MAX),
            None => None,
        };
        let message = status_message("Too many requests (", status, status_text.as_str(), ")");
        ResponseClass::Failure(
            ApiError::TooManyRequests(
                TooManyRequestsError {
                    message,
                    code: status,
                    status_text,
                    user_limit,
                    user_remaining,
                    reset_after,
                },
            ),
        )
    } else if 500 <= status && status <= 599 {
        let message = status_message("HackMD internal error (", status, status_text.as_str(), ")");
        ResponseClass::Failure(
            ApiError::InternalServer(InternalServerError { message, code: status, status_text }),
        )
    } else {
        let message = status_message(
            "Received an error response (",
            status,
            status_text.as_str(),
            ") from HackMD",
        );
        ResponseClass::Failure(
            ApiError::HttpResponse(HttpResponseError { message, code: status, status_text }),
        )
    }
}

} // verus!
