//! The error taxonomy shared by every API operation.
use vstd::prelude::*;

use crate::text::{decimal_spec, push_decimal};

verus! {

#[verifier::external_type_specification]
#[verifier::external_body]
pub struct ExReqwestError(reqwest::Error);

#[verifier::external_type_specification]
#[verifier::external_body]
pub struct ExUrlParseError(url::ParseError);

#[verifier::external_type_specification]
#[verifier::external_body]
pub struct ExInvalidHeaderValue(reqwest::header::InvalidHeaderValue);

#[verifier::external_type_specification]
#[verifier::external_body]
pub struct ExJsonError(serde_json::Error);

/// Relies on reqwest::Error::is_timeout: whether the request timed out.
pub assume_specification[ reqwest::Error::is_timeout ](e: &reqwest::Error) -> bool;

/// Relies on reqwest::Error::is_connect: whether connecting failed.
pub assume_specification[ reqwest::Error::is_connect ](e: &reqwest::Error) -> bool;

/// Relies on reqwest::Error::is_request: whether sending the request failed.
pub assume_specification[ reqwest::Error::is_request ](e: &reqwest::Error) -> bool;

/// A generic failure reported by the library itself.
#[derive(Debug)]
pub struct HackMDError {
    pub message: String,
}

/// A non-success response that is neither a rate limit nor a server error.
#[derive(Debug)]
pub struct HttpResponseError {
    pub message: String,
    pub code: u16,
    pub status_text: String,
}

/// A required argument was missing when the client was built.
#[derive(Debug)]
pub struct MissingRequiredArgument {
    pub message: String,
}

/// A 5xx response.
#[derive(Debug)]
pub struct InternalServerError {
    pub message: String,
    pub code: u16,
    pub status_text: String,
}

/// A 429 response, with the quota figures the server sent along.
#[derive(Debug)]
pub struct TooManyRequestsError {
    pub message: String,
    pub code: u16,
    pub status_text: String,
    pub user_limit: u32,
    pub user_remaining: u32,
    pub reset_after: Option<u64>,
}

/// Every way an API operation can fail; exactly one kind per value.
#[derive(Debug)]
pub enum ApiError {
    HackMD(HackMDError),
    HttpResponse(HttpResponseError),
    MissingRequiredArgument(MissingRequiredArgument),
    InternalServer(InternalServerError),
    TooManyRequests(TooManyRequestsError),
    Reqwest(reqwest::Error),
    Url(url::ParseError),
    Header(reqwest::header::InvalidHeaderValue),
    Serde(serde_json::Error),
}

pub type Result<T> = core::result::Result<T, ApiError>;

impl ApiError {
    /// Whether the error comes from the transport layer, whose class only
    /// the HTTP client can tell.
    pub open spec fn is_transport(&self) -> bool {
        self is Reqwest
    }

    /// Whether the error wraps an error of another library, whose text
    /// that library writes.
    pub open spec fn is_foreign(&self) -> bool {
        self is Reqwest || self is Url || self is Header || self is Serde
    }

    /// The words that open the error's text, naming its kind.
    pub open spec fn spec_prefix(&self) -> Seq<char> {
        match self {
            ApiError::HackMD(_) => "HackMD error: "@,
            ApiError::HttpResponse(_) => "HTTP response error: "@,
            ApiError::MissingRequiredArgument(_) => "Missing required argument: "@,
            ApiError::InternalServer(_) => "Internal server error: "@,
            ApiError::TooManyRequests(_) => "Too many requests: "@,
            ApiError::Reqwest(_) => "Request error: "@,
            ApiError::Url(_) => "URL parse error: "@,
            ApiError::Header(_) => "Header error: "@,
            ApiError::Serde(_) => "Serialization error: "@,
        }
    }

    /// The text of the wrapped error, for the kinds of this library.
    pub open spec fn spec_detail(&self) -> Seq<char> {
        match self {
            ApiError::HackMD(e) => e.spec_text(),
            ApiError::HttpResponse(e) => e.spec_text(),
            ApiError::MissingRequiredArgument(e) => e.spec_text(),
            ApiError::InternalServer(e) => e.spec_text(),
            ApiError::TooManyRequests(e) => e.spec_text(),
            _ => Seq::empty(),
        }
    }

    fn prefix(&self) -> (r: &'static str)
        ensures
            r@ == self.spec_prefix(),
    {
        match self {
            ApiError::HackMD(_) => "HackMD error: ",
            ApiError::HttpResponse(_) => "HTTP response error: ",
            ApiError::MissingRequiredArgument(_) => "Missing required argument: ",
            ApiError::InternalServer(_) => "Internal server error: ",
            ApiError::TooManyRequests(_) => "Too many requests: ",
            ApiError::Reqwest(_) => "Request error: ",
            ApiError::Url(_) => "URL parse error: ",
            ApiError::Header(_) => "Header error: ",
            ApiError::Serde(_) => "Serialization error: ",
        }
    }

    /// The error as text: its kind, then the wrapped error's own text.
    pub fn to_string(&self) -> (r: String)
        ensures
            !self.is_foreign() ==> r@ == self.spec_prefix() + self.spec_detail(),
            self.is_foreign() ==> r@.len() >= self.spec_prefix().len() && r@.subrange(
                0,
                self.spec_prefix().len() as int,
            ) == self.spec_prefix(),
    {
        let mut r = String::new();
        r.append(self.prefix());
        let detail = match self {
            ApiError::HackMD(e) => e.to_string(),
            ApiError::HttpResponse(e) => e.to_string(),
            ApiError::MissingRequiredArgument(e) => e.to_string(),
            ApiError::InternalServer(e) => e.to_string(),
            ApiError::TooManyRequests(e) => e.to_string(),
            ApiError::Reqwest(e) => foreign_text(e),
            ApiError::Url(e) => foreign_text(e),
            ApiError::Header(e) => foreign_text(e),
            ApiError::Serde(e) => foreign_text(e),
        };
        r.append(detail.as_str());
        assert(r@.subrange(0, self.spec_prefix().len() as int) =~= self.spec_prefix());
        r
    }
}

/// Relies on the `Display` impls of reqwest::Error, url::ParseError,
/// reqwest::header::InvalidHeaderValue and serde_json::Error for their text,
/// of which nothing is assumed.
#[verifier::external_body]
fn foreign_text<T: core::fmt::Display>(e: &T) -> String {
    e.to_string()
}

/// `<message> (<code>)`.
pub open spec fn coded_text(message: Seq<char>, code: u16) -> Seq<char> {
    message + " ("@ + decimal_spec(code as nat) + ")"@
}

fn coded_string(message: &str, code: u16) -> (r: String)
    ensures
        r@ == coded_text(message@, code),
{
    let mut r = String::new();
    r.append(message);
    r.append(" (");
    push_decimal(&mut r, code as u64);
    r.append(")");
    assert(r@ =~= coded_text(message@, code));
    r
}

impl HackMDError {
    pub open spec fn spec_text(&self) -> Seq<char> {
        self.message@
    }

    /// The error as text: its message.
    pub fn to_string(&self) -> (r: String)
        ensures
            r@ == self.spec_text(),
    {
        self.message.clone()
    }
}

impl MissingRequiredArgument {
    pub open spec fn spec_text(&self) -> Seq<char> {
        self.message@
    }

    /// The error as text: its message.
    pub fn to_string(&self) -> (r: String)
        ensures
            r@ == self.spec_text(),
    {
        self.message.clone()
    }
}

impl HttpResponseError {
    pub open spec fn spec_text(&self) -> Seq<char> {
        coded_text(self.message@, self.code)
    }

    /// The error as text: `<message> (<code>)`.
    pub fn to_string(&self) -> (r: String)
        ensures
            r@ == self.spec_text(),
    {
        coded_string(self.message.as_str(), self.code)
    }
}

impl InternalServerError {
    pub open spec fn spec_text(&self) -> Seq<char> {
        coded_text(self.message@, self.code)
    }

    /// The error as text: `<message> (<code>)`.
    pub fn to_string(&self) -> (r: String)
        ensures
            r@ == self.spec_text(),
    {
        coded_string(self.message.as_str(), self.code)
    }
}

impl TooManyRequestsError {
    /// `<message> (<code>): <remaining>/<limit> requests remaining`.
    pub open spec fn spec_text(&self) -> Seq<char> {
        coded_text(self.message@, self.code) + ": "@ + decimal_spec(self.user_remaining as nat)
            + "/"@ + decimal_spec(self.user_limit as nat) + " requests remaining"@
    }

    /// The error as text, with the quota left.
    pub fn to_string(&self) -> (r: String)
        ensures
            r@ == self.spec_text(),
    {
        let mut r = coded_string(self.message.as_str(), self.code);
        r.append(": ");
        push_decimal(&mut r, self.user_remaining as u64);
        r.append("/");
        push_decimal(&mut r, self.user_limit as u64);
        r.append(" requests remaining");
        assert(r@ =~= self.spec_text());
        r
    }
}

impl From<reqwest::Error> for ApiError {
    fn from(error: reqwest::Error) -> ApiError {
        ApiError::Reqwest(error)
    }
}

impl vstd::std_specs::convert::FromSpecImpl<reqwest::Error> for ApiError {
    open spec fn obeys_from_spec() -> bool {
        true
    }

    open spec fn from_spec(v: reqwest::Error) -> ApiError {
        ApiError::Reqwest(v)
    }
}

impl From<url::ParseError> for ApiError {
    fn from(error: url::ParseError) -> ApiError {
        ApiError::Url(error)
    }
}

impl vstd::std_specs::convert::FromSpecImpl<url::ParseError> for ApiError {
    open spec fn obeys_from_spec() -> bool {
        true
    }

    open spec fn from_spec(v: url::ParseError) -> ApiError {
        ApiError::Url(v)
    }
}

impl From<reqwest::header::InvalidHeaderValue> for ApiError {
    fn from(error: reqwest::header::InvalidHeaderValue) -> ApiError {
        ApiError::Header(error)
    }
}

impl vstd::std_specs::convert::FromSpecImpl<reqwest::header::InvalidHeaderValue> for ApiError {
    open spec fn obeys_from_spec() -> bool {
        true
    }

    open spec fn from_spec(v: reqwest::header::InvalidHeaderValue) -> ApiError {
        ApiError::Header(v)
    }
}

impl From<serde_json::Error> for ApiError {
    fn from(error: serde_json::Error) -> ApiError {
        ApiError::Serde(error)
    }
}

impl vstd::std_specs::convert::FromSpecImpl<serde_json::Error> for ApiError {
    open spec fn obeys_from_spec() -> bool {
        true
    }

    open spec fn from_spec(v: serde_json::Error) -> ApiError {
        ApiError::Serde(v)
    }
}

} // verus!
