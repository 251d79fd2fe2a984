//! Client configuration and the resolution of endpoint paths.
use vstd::prelude::*;

use crate::error::{ApiError, MissingRequiredArgument};

verus! {

#[verifier::external_type_specification]
#[verifier::external_body]
pub struct ExHeaderValue(reqwest::header::HeaderValue);

/// Whether a character may stand in an HTTP header value: every byte of it
/// is at least 32 and not 127, or it is a tab (so any non-ASCII character
/// passes, its bytes all being at least 128).
pub open spec fn header_char_ok(c: char) -> bool {
    (c as u32 >= 32 && c as u32 != 127) || c == '\t'
}

pub open spec fn header_text_ok(s: Seq<char>) -> bool {
    forall|i: int| 0 <= i < s.len() ==> header_char_ok(#[trigger] s[i])
}

/// Relies on reqwest::header::HeaderValue::from_str: it refuses a text
/// exactly when one of its bytes is below 32 (but for tab) or is 127.
#[verifier::external_body]
fn header_value(text: &str) -> (r: Result<
    reqwest::header::HeaderValue,
    reqwest::header::InvalidHeaderValue,
>)
    ensures
        r is Ok <==> header_text_ok(text@),
{
    reqwest::header::HeaderValue::from_str(text)
}

/// The serialization of `s` read as an absolute URL; `None` where it is not one.
pub uninterp spec fn parsed_url(s: Seq<char>) -> Option<Seq<char>>;

/// Relies on url::Url::parse: reads an absolute URL; the result is its
/// serialization.
#[verifier::external_body]
fn parse_url(s: &str) -> (r: Result<String, url::ParseError>)
    ensures
        match r {
            Ok(t) => parsed_url(s@) == Some(t@),
            Err(_) => parsed_url(s@) is None,
        },
{
    url::Url::parse(s).map(String::from)
}

/// The serialization of the reference `path` resolved against the URL
/// `base`; `None` where either does not parse.
pub uninterp spec fn joined_url(base: Seq<char>, path: Seq<char>) -> Option<Seq<char>>;

/// Relies on url::Url::join: resolves `path` against `base` (as
/// url::Url::parse reads it) by the rules of relative references.
#[verifier::external_body]
fn join_url(base: &str, path: &str) -> (r: Result<String, url::ParseError>)
    ensures
        match r {
            Ok(t) => joined_url(base@, path@) == Some(t@),
            Err(_) => joined_url(base@, path@) is None,
        },
{
    url::Url::parse(base).and_then(|u| u.join(path)).map(String::from)
}

pub const DEFAULT_BASE_URL: &'static str = "https://api.hackmd.io/v1";

pub const MISSING_TOKEN_MESSAGE: &'static str = "Missing access token when creating HackMD client";

/// How often, and how patiently, a failed operation is tried again.
#[derive(Clone, Copy, Debug, PartialEq, Eq, Structural)]
pub struct RetryOptions {
    /// Attempts allowed after the first one.
    pub max_retries: u32,
    /// Delay before the first retry, in milliseconds; it doubles each time.
    pub base_delay_ms: u64,
}

/// Knobs fixed when the client is built.
#[derive(Clone, Copy, Debug, PartialEq, Eq, Structural)]
pub struct ApiClientOptions {
    /// Classify failed responses into the rich error kinds.
    pub wrap_response_errors: bool,
    /// Per-attempt timeout, in milliseconds.
    pub timeout_ms: Option<u64>,
    /// `None` turns retrying off: every operation runs exactly once.
    pub retry_options: Option<RetryOptions>,
}

pub const DEFAULT_TIMEOUT_MS: u64 = 30000;

pub const DEFAULT_MAX_RETRIES: u32 = 3;

pub const DEFAULT_BASE_DELAY_MS: u64 = 100;

impl ApiClientOptions {
    pub open spec fn spec_default() -> ApiClientOptions {
        ApiClientOptions {
            wrap_response_errors: true,
            timeout_ms: Some(DEFAULT_TIMEOUT_MS),
            retry_options: Some(
                RetryOptions { max_retries: DEFAULT_MAX_RETRIES, base_delay_ms: DEFAULT_BASE_DELAY_MS },
            ),
        }
    }
}

impl Default for ApiClientOptions {
    fn default() -> (r: ApiClientOptions)
        ensures
            r == ApiClientOptions::spec_default(),
    {
        ApiClientOptions {
            wrap_response_errors: true,
            timeout_ms: Some(DEFAULT_TIMEOUT_MS),
            retry_options: Some(
                RetryOptions { max_retries: DEFAULT_MAX_RETRIES, base_delay_ms: DEFAULT_BASE_DELAY_MS },
            ),
        }
    }
}

/// The base URL the client resolves against: the given one, or the default.
pub open spec fn requested_base(base_url: Option<&str>) -> Seq<char> {
    match base_url {
        Some(b) => b@,
        None => DEFAULT_BASE_URL@,
    }
}

/// `url` with a closing `/`, so that a relative path extends its last
/// segment instead of replacing it.
pub open spec fn as_directory(url: Seq<char>) -> Seq<char> {
    if url.len() > 0 && url.last() == '/' {
        url
    } else {
        url + "/"@
    }
}

pub open spec fn bearer_text(token: Seq<char>) -> Seq<char> {
    "Bearer "@ + token
}

pub open spec fn options_or_default(options: Option<ApiClientOptions>) -> ApiClientOptions {
    match options {
        Some(o) => o,
        None => ApiClientOptions::spec_default(),
    }
}

/// The path of one note: `notes/<id>`.
pub fn note_path(note_id: &str) -> (r: String)
    ensures
        r@ == "notes/"@ + note_id@,
{
    let mut r = String::new();
    r.append("notes/");
    r.append(note_id);
    r
}

/// The path of a team's notes: `teams/<team>/notes`.
pub fn team_notes_path(team_path: &str) -> (r: String)
    ensures
        r@ == "teams/"@ + team_path@ + "/notes"@,
{
    let mut r = String::new();
    r.append("teams/");
    r.append(team_path);
    r.append("/notes");
    r
}

/// The path of one note of a team: `teams/<team>/notes/<id>`.
pub fn team_note_path(team_path: &str, note_id: &str) -> (r: String)
    ensures
        r@ == "teams/"@ + team_path@ + "/notes/"@ + note_id@,
{
    let mut r = String::new();
    r.append("teams/");
    r.append(team_path);
    r.append("/notes/");
    r.append(note_id);
    r
}

/// A client bound to one access token and one base URL.
pub struct ApiClient {
    bearer: String,
    authorization: reqwest::header::HeaderValue,
    base_url: String,
    options: ApiClientOptions,
}

impl ApiClient {
    /// The base URL, ending in `/`.
    pub closed spec fn spec_base_url(&self) -> Seq<char> {
        self.base_url@
    }

    pub closed spec fn spec_options(&self) -> ApiClientOptions {
        self.options
    }

    /// The text of the `Authorization` header sent with every request.
    pub closed spec fn spec_authorization(&self) -> Seq<char> {
        self.bearer@
    }

    /// Builds a client with the default base URL and options.
    pub fn new(access_token: &str) -> (r: Result<ApiClient, ApiError>)
        ensures
            Self::built(access_token@, None, None, r),
    {
        Self::with_options(access_token, None, None)
    }

    /// Builds a client against `base_url` with the default options.
    pub fn with_base_url(access_token: &str, base_url: &str) -> (r: Result<ApiClient, ApiError>)
        ensures
            Self::built(access_token@, Some(base_url), None, r),
    {
        Self::with_options(access_token, Some(base_url), None)
    }

    /// What building a client from these arguments gives: an empty token is
    /// a missing argument, whatever else is given; then the token must be
    /// fit for a header, then the base URL must parse.
    pub open spec fn built(
        access_token: Seq<char>,
        base_url: Option<&str>,
        options: Option<ApiClientOptions>,
        r: Result<ApiClient, ApiError>,
    ) -> bool {
        if access_token.len() == 0 {
            r matches Err(ApiError::MissingRequiredArgument(m)) && m.message@
                == MISSING_TOKEN_MESSAGE@
        } else if !header_text_ok(bearer_text(access_token)) {
            r matches Err(ApiError::Header(_))
        } else {
            match parsed_url(requested_base(base_url)) {
                None => r matches Err(ApiError::Url(_)),
                Some(u) => r matches Ok(c) && c.spec_base_url() == as_directory(u)
                    && c.spec_options() == options_or_default(options)
                    && c.spec_authorization() == bearer_text(access_token),
            }
        }
    }

    /// Builds a client; `None` takes the default base URL or options.
    pub fn with_options(
        access_token: &str,
        base_url: Option<&str>,
        options: Option<ApiClientOptions>,
    ) -> (r: Result<ApiClient, ApiError>)
        ensures
            Self::built(access_token@, base_url, options, r),
    {
        if access_token.is_empty() {
            let mut message = String::new();
            message.append(MISSING_TOKEN_MESSAGE);
            return Err(ApiError::MissingRequiredArgument(MissingRequiredArgument { message }));
        }
        let options = match options {
            Some(o) => o,
            None => ApiClientOptions::default(),
        };
        let mut auth = String::new();
        proof {
            reveal_strlit("Bearer ");
        }
        auth.append("Bearer ");
        auth.append(access_token);
        let authorization = match header_value(auth.as_str()) {
            Ok(v) => v,
            Err(e) => {
                return Err(ApiError::Header(e));
            },
        };
        let requested = match base_url {
            Some(b) => b,
            None => DEFAULT_BASE_URL,
        };
        let mut base_url = match parse_url(requested) {
            Ok(t) => t,
            Err(e) => {
                return Err(ApiError::Url(e));
            },
        };
        let len = base_url.as_str().unicode_len();
        if len == 0 || base_url.as_str().get_char(len - 1) != '/' {
            proof {
                reveal_strlit("/");
            }
            base_url.append("/");
        }
        Ok(ApiClient { bearer: auth, authorization, base_url, options })
    }

    /// The base URL, ending in `/`.
    pub fn base_url(&self) -> (r: &str)
        ensures
            r@ == self.spec_base_url(),
    {
        self.base_url.as_str()
    }

    pub fn options(&self) -> (r: &ApiClientOptions)
        ensures
            *r == self.spec_options(),
    {
        &self.options
    }

    /// The `Authorization` header value, `Bearer <token>`, as text.
    pub fn authorization_text(&self) -> (r: &str)
        ensures
            r@ == self.spec_authorization(),
    {
        self.bearer.as_str()
    }

    /// The `Authorization` header value, built from `authorization_text`.
    pub fn authorization(&self) -> &reqwest::header::HeaderValue {
        &self.authorization
    }

    /// Resolves a relative API path (such as `notes/abc`) against the base URL.
    pub fn endpoint_url(&self, path: &str) -> (r: Result<String, ApiError>)
        ensures
            match r {
                Ok(t) => joined_url(self.spec_base_url(), path@) == Some(t@),
                Err(e) => joined_url(self.spec_base_url(), path@) is None && e is Url,
            },
    {
        match join_url(self.base_url.as_str(), path) {
            Ok(t) => Ok(t),
            Err(e) => Err(ApiError::Url(e)),
        }
    }
}

} // verus!
