//! Error handling for the SDK: the error type, its constructors and its
//! classification into authentication, not-found, permission and quota errors.
pub mod errno;

use vstd::prelude::*;
use vstd::string::StringExecFns;

use crate::encoding::json_error_text;
use crate::text::{int_decimal, i64_to_string, owned, starts_with_seq, u64_to_string};

use self::errno::{
    error_description, spec_is_auth_error, spec_is_not_found_error, spec_is_permission_error,
    spec_is_quota_error, spec_is_token_expired,
};

verus! {

/// `reqwest::Error`: an HTTP client error, carried through unchanged.
#[verifier::external_type_specification]
#[verifier::external_body]
pub struct ExReqwestError(reqwest::Error);

/// `serde_json::Error`: a JSON error, carried through unchanged.
#[verifier::external_type_specification]
#[verifier::external_body]
pub struct ExJsonError(serde_json::Error);

/// `url::ParseError`: a URL parsing error, carried through unchanged.
#[verifier::external_type_specification]
#[verifier::external_body]
pub struct ExUrlParseError(url::ParseError);

/// `std::io::Error`: an I/O error, carried through unchanged.
#[verifier::external_type_specification]
#[verifier::external_body]
pub struct ExIoError(std::io::Error);

/// `tokio::task::JoinError`: a task join error, carried through unchanged.
#[verifier::external_type_specification]
#[verifier::external_body]
pub struct ExJoinError(tokio::task::JoinError);

/// SDK error types
#[derive(Debug)]
pub enum NetDiskError {
    /// HTTP request error
    HttpError { status_code: u16, url: String, source: Option<reqwest::Error> },
    /// API business error
    ApiError { errno: i32, errmsg: String },
    /// Authentication error
    AuthError { description: String },
    /// File already exists
    FileExists { path: String },
    /// File not found
    FileNotFound { path: String },
    /// Directory not found
    DirectoryNotFound { path: String },
    /// IO error
    IoError(std::io::Error),
    /// JSON parsing error
    JsonError(serde_json::Error),
    /// URL encoding error
    UrlEncodeError(String),
    /// URL parsing error
    UrlParseError(url::ParseError),
    /// Request timeout
    Timeout,
    /// Request cancelled
    Cancelled,
    /// Invalid parameter
    InvalidParameter { message: String },
    /// Token expired
    TokenExpired,
    /// Synchronization primitive error
    SyncError(String),
    /// Invalid header value
    InvalidHeaderValue(String),
    /// Reqwest HTTP client error
    ReqwestError(reqwest::Error),
    /// MPSC send error
    MpscSendError(String),
    /// Join error (task join error)
    JoinError(tokio::task::JoinError),
    /// Unknown error
    Unknown { message: String },
}

/// SDK result type
pub type NetDiskResult<T> = Result<T, NetDiskError>;

/// The message an API error carries: the table's description of the code, or
/// the given message when the table has none.
pub open spec fn api_error_message(errno: i32, errmsg: Seq<char>) -> Seq<char> {
    match error_description(errno) {
        Some(d) => d@,
        None => errmsg,
    }
}

/// The error is an API error with this code and message.
pub open spec fn is_api_error(e: NetDiskError, errno: i32, errmsg: Seq<char>) -> bool {
    e matches NetDiskError::ApiError { errno: n, errmsg: m } && n == errno && m@ == errmsg
}

/// The error is an authentication error with this description.
pub open spec fn is_auth_error_with(e: NetDiskError, description: Seq<char>) -> bool {
    e matches NetDiskError::AuthError { description: d } && d@ == description
}

/// The error is an "unknown" error whose message begins with `prefix`.
pub open spec fn is_unknown_error_after(e: NetDiskError, prefix: Seq<char>) -> bool {
    e matches NetDiskError::Unknown { message: m } && starts_with_seq(m@, prefix)
}

/// The error is an "unknown" error with this message.
pub open spec fn is_unknown_error_with(e: NetDiskError, message: Seq<char>) -> bool {
    e matches NetDiskError::Unknown { message: m } && m@ == message
}

impl NetDiskError {
    /// The error is authentication related.
    pub open spec fn spec_is_auth_error(&self) -> bool {
        match self {
            NetDiskError::ApiError { errno, .. } => spec_is_auth_error(*errno),
            NetDiskError::TokenExpired => true,
            NetDiskError::AuthError { .. } => true,
            _ => false,
        }
    }

    /// The error means that something was not found.
    pub open spec fn spec_is_not_found_error(&self) -> bool {
        match self {
            NetDiskError::ApiError { errno, .. } => spec_is_not_found_error(*errno),
            NetDiskError::FileNotFound { .. } => true,
            NetDiskError::DirectoryNotFound { .. } => true,
            _ => false,
        }
    }

    /// The error is permission related.
    pub open spec fn spec_is_permission_error(&self) -> bool {
        match self {
            NetDiskError::ApiError { errno, .. } => spec_is_permission_error(*errno),
            _ => false,
        }
    }

    /// The error is quota related.
    pub open spec fn spec_is_quota_error(&self) -> bool {
        match self {
            NetDiskError::ApiError { errno, .. } => spec_is_quota_error(*errno),
            _ => false,
        }
    }

    /// The error means that the token expired.
    pub open spec fn spec_is_token_expired(&self) -> bool {
        match self {
            NetDiskError::ApiError { errno, .. } => spec_is_token_expired(*errno),
            NetDiskError::TokenExpired => true,
            _ => false,
        }
    }

    /// Create HTTP error
    pub fn http_error(status_code: u16, url: &str) -> (e: Self)
        ensures
            e matches NetDiskError::HttpError { status_code: s, url: u, source: None } && s
                == status_code && u@ == url@,
    {
        NetDiskError::HttpError { status_code, url: url.to_string(), source: None }
    }

    /// Create HTTP error with source
    pub fn http_error_with_source(status_code: u16, url: &str, source: reqwest::Error) -> (e: Self)
        ensures
            e matches NetDiskError::HttpError { status_code: s, url: u, source: Some(src) } && s
                == status_code && u@ == url@ && src == source,
    {
        NetDiskError::HttpError { status_code, url: url.to_string(), source: Some(source) }
    }

    /// Create API error with standard error description
    pub fn api_error(errno: i32, errmsg: &str) -> (e: Self)
        ensures
            is_api_error(e, errno, api_error_message(errno, errmsg@)),
    {
        let description = match errno::get_error_description(errno) {
            Some(d) => d,
            None => errmsg,
        };
        NetDiskError::ApiError { errno, errmsg: description.to_string() }
    }

    /// Create API error with raw error message
    pub fn api_error_raw(errno: i32, errmsg: &str) -> (e: Self)
        ensures
            is_api_error(e, errno, errmsg@),
    {
        NetDiskError::ApiError { errno, errmsg: errmsg.to_string() }
    }

    /// Create authentication error
    pub fn auth_error(description: &str) -> (e: Self)
        ensures
            is_auth_error_with(e, description@),
    {
        NetDiskError::AuthError { description: description.to_string() }
    }

    /// Create invalid parameter error
    pub fn invalid_parameter(message: &str) -> (e: Self)
        ensures
            e matches NetDiskError::InvalidParameter { message: m } && m@ == message@,
    {
        NetDiskError::InvalidParameter { message: message.to_string() }
    }

    /// Create file exists error
    pub fn file_exists(path: &str) -> (e: Self)
        ensures
            e matches NetDiskError::FileExists { path: p } && p@ == path@,
    {
        NetDiskError::FileExists { path: path.to_string() }
    }

    /// Create file not found error
    pub fn file_not_found(path: &str) -> (e: Self)
        ensures
            e matches NetDiskError::FileNotFound { path: p } && p@ == path@,
    {
        NetDiskError::FileNotFound { path: path.to_string() }
    }

    /// Create directory not found error
    pub fn directory_not_found(path: &str) -> (e: Self)
        ensures
            e matches NetDiskError::DirectoryNotFound { path: p } && p@ == path@,
    {
        NetDiskError::DirectoryNotFound { path: path.to_string() }
    }

    /// Create an "unknown" error with a message
    pub fn unknown(message: String) -> (e: Self)
        ensures
            is_unknown_error_with(e, message@),
    {
        NetDiskError::Unknown { message }
    }

    /// Check if error is authentication related
    pub fn is_auth_error(&self) -> (r: bool)
        ensures
            r == self.spec_is_auth_error(),
    {
        match self {
            NetDiskError::ApiError { errno, .. } => errno::is_auth_error(*errno),
            NetDiskError::TokenExpired => true,
            NetDiskError::AuthError { .. } => true,
            _ => false,
        }
    }

    /// Check if error indicates not found
    pub fn is_not_found_error(&self) -> (r: bool)
        ensures
            r == self.spec_is_not_found_error(),
    {
        match self {
            NetDiskError::ApiError { errno, .. } => errno::is_not_found_error(*errno),
            NetDiskError::FileNotFound { .. } => true,
            NetDiskError::DirectoryNotFound { .. } => true,
            _ => false,
        }
    }

    /// Check if error is permission related
    pub fn is_permission_error(&self) -> (r: bool)
        ensures
            r == self.spec_is_permission_error(),
    {
        match self {
            NetDiskError::ApiError { errno, .. } => errno::is_permission_error(*errno),
            _ => false,
        }
    }

    /// Check if error is quota related
    pub fn is_quota_error(&self) -> (r: bool)
        ensures
            r == self.spec_is_quota_error(),
    {
        match self {
            NetDiskError::ApiError { errno, .. } => errno::is_quota_error(*errno),
            _ => false,
        }
    }

    /// Check if error indicates token expired
    pub fn is_token_expired(&self) -> (r: bool)
        ensures
            r == self.spec_is_token_expired(),
    {
        match self {
            NetDiskError::ApiError { errno, .. } => errno::is_token_expired(*errno),
            NetDiskError::TokenExpired => true,
            _ => false,
        }
    }
}

/// The message an error displays, for the errors that carry no value of an
/// outside crate; `None` for those that do.
pub open spec fn error_text(e: NetDiskError) -> Option<Seq<char>> {
    match e {
        NetDiskError::HttpError { status_code, url, .. } => Some(
            "HTTP request error: "@ + int_decimal(status_code as int) + " - "@ + url@,
        ),
        NetDiskError::ApiError { errno, errmsg } => Some(
            "API error: "@ + int_decimal(errno as int) + " - "@ + errmsg@,
        ),
        NetDiskError::AuthError { description } => Some("Authentication error: "@ + description@),
        NetDiskError::FileExists { path } => Some("File already exists: "@ + path@),
        NetDiskError::FileNotFound { path } => Some("File not found: "@ + path@),
        NetDiskError::DirectoryNotFound { path } => Some("Directory not found: "@ + path@),
        NetDiskError::UrlEncodeError(m) => Some("URL encoding error: "@ + m@),
        NetDiskError::Timeout => Some("Request timed out"@),
        NetDiskError::Cancelled => Some("Request cancelled"@),
        NetDiskError::InvalidParameter { message } => Some("Invalid parameter: "@ + message@),
        NetDiskError::TokenExpired => Some("Token expired"@),
        NetDiskError::SyncError(m) => Some("Synchronization primitive error: "@ + m@),
        NetDiskError::InvalidHeaderValue(m) => Some("Invalid header value: "@ + m@),
        NetDiskError::MpscSendError(m) => Some("MPSC send error: "@ + m@),
        NetDiskError::Unknown { message } => Some("Unknown error: "@ + message@),
        _ => None,
    }
}

/// The prefix of the message of an error that carries a value of an outside
/// crate, which the value's own message follows.
pub open spec fn outside_error_prefix(e: NetDiskError) -> Seq<char> {
    match e {
        NetDiskError::IoError(_) => "IO error: "@,
        NetDiskError::JsonError(_) => "JSON parsing error: "@,
        NetDiskError::UrlParseError(_) => "URL parsing error: "@,
        NetDiskError::ReqwestError(_) => "HTTP client error: "@,
        _ => "Task join error: "@,
    }
}

/// The text of an HTTP client error (its `Display`).
///
/// Nothing is stated of the text.
#[verifier::external_body]
fn reqwest_error_text(e: &reqwest::Error) -> String {
    e.to_string()
}

/// The text of an I/O error (its `Display`).
///
/// Nothing is stated of the text.
#[verifier::external_body]
fn io_error_text(e: &std::io::Error) -> String {
    e.to_string()
}

/// The text of a URL parsing error (its `Display`).
///
/// Nothing is stated of the text.
#[verifier::external_body]
fn url_error_text(e: &url::ParseError) -> String {
    e.to_string()
}

/// The text of a task join error (its `Display`).
///
/// Nothing is stated of the text.
#[verifier::external_body]
fn join_error_text(e: &tokio::task::JoinError) -> String {
    e.to_string()
}

/// A fixed text followed by another.
fn joined(prefix: &str, rest: &str) -> (r: String)
    ensures
        r@ == prefix@ + rest@,
        starts_with_seq(r@, prefix@),
{
    let mut r = owned(prefix);
    r.append(rest);
    assert(r@.subrange(0, prefix@.len() as int) =~= prefix@);
    r
}

/// An "unknown" error whose message is a fixed text followed by a detail.
pub(crate) fn unknown_after(prefix: &str, detail: &str) -> (e: NetDiskError)
    ensures
        is_unknown_error_with(e, prefix@ + detail@),
        is_unknown_error_after(e, prefix@),
{
    NetDiskError::unknown(joined(prefix, detail))
}

impl NetDiskError {
    /// The message the error displays: a fixed text per kind with the
    /// error's values; an error of an outside crate follows its prefix.
    pub fn message(&self) -> (r: String)
        ensures
            error_text(*self) matches Some(t) ==> r@ == t,
            error_text(*self) is None ==> starts_with_seq(r@, outside_error_prefix(*self)),
    {
        let r = match self {
            NetDiskError::HttpError { status_code, url, .. } => {
                let mut r = owned("HTTP request error: ");
                r.append(u64_to_string(*status_code as u64).as_str());
                r.append(" - ");
                r.append(url.as_str());
                r
            },
            NetDiskError::ApiError { errno, errmsg } => {
                let mut r = owned("API error: ");
                r.append(i64_to_string(*errno as i64).as_str());
                r.append(" - ");
                r.append(errmsg.as_str());
                r
            },
            NetDiskError::AuthError { description } => joined("Authentication error: ", description.as_str()),
            NetDiskError::FileExists { path } => joined("File already exists: ", path.as_str()),
            NetDiskError::FileNotFound { path } => joined("File not found: ", path.as_str()),
            NetDiskError::DirectoryNotFound { path } => joined("Directory not found: ", path.as_str()),
            NetDiskError::IoError(e) => joined("IO error: ", io_error_text(e).as_str()),
            NetDiskError::JsonError(e) => joined("JSON parsing error: ", json_error_text(e).as_str()),
            NetDiskError::UrlEncodeError(m) => joined("URL encoding error: ", m.as_str()),
            NetDiskError::UrlParseError(e) => joined("URL parsing error: ", url_error_text(e).as_str()),
            NetDiskError::Timeout => owned("Request timed out"),
            NetDiskError::Cancelled => owned("Request cancelled"),
            NetDiskError::InvalidParameter { message } => joined("Invalid parameter: ", message.as_str()),
            NetDiskError::TokenExpired => owned("Token expired"),
            NetDiskError::SyncError(m) => joined("Synchronization primitive error: ", m.as_str()),
            NetDiskError::InvalidHeaderValue(m) => joined("Invalid header value: ", m.as_str()),
            NetDiskError::ReqwestError(e) => joined("HTTP client error: ", reqwest_error_text(e).as_str()),
            NetDiskError::MpscSendError(m) => joined("MPSC send error: ", m.as_str()),
            NetDiskError::JoinError(e) => joined("Task join error: ", join_error_text(e).as_str()),
            NetDiskError::Unknown { message } => joined("Unknown error: ", message.as_str()),
        };
        r
    }
}

/// Every error that means an expired token is an authentication error.
pub proof fn lemma_token_expired_error_is_auth_error(e: NetDiskError)
    requires
        e.spec_is_token_expired(),
    ensures
        e.spec_is_auth_error(),
{
}

/// No error is at once a not-found error and a permission, quota or
/// authentication error, nor a permission error and a quota error.
pub proof fn lemma_error_kinds_disjoint(e: NetDiskError)
    ensures
        !(e.spec_is_not_found_error() && e.spec_is_permission_error()),
        !(e.spec_is_not_found_error() && e.spec_is_quota_error()),
        !(e.spec_is_not_found_error() && e.spec_is_auth_error()),
        !(e.spec_is_permission_error() && e.spec_is_quota_error()),
        !(e.spec_is_permission_error() && e.spec_is_auth_error()),
        !(e.spec_is_quota_error() && e.spec_is_auth_error()),
{
}

/// An API error built for a code that the table describes carries the
/// table's description, whatever message was given.
pub proof fn lemma_api_error_prefers_table(errno: i32, m1: Seq<char>, m2: Seq<char>)
    requires
        error_description(errno) is Some,
    ensures
        api_error_message(errno, m1) == api_error_message(errno, m2),
        api_error_message(errno, m1) == error_description(errno)->0@,
{
}

} // verus!
