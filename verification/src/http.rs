//! HTTP request policy: the client configuration, where a request goes, when
//! a failed attempt is retried, and which error a failed response becomes.
use std::time::Duration;
use vstd::prelude::*;

use crate::auth::{ApiErrorResponse, AuthErrorResponse};
use crate::errors::{api_error_message, is_api_error, is_auth_error_with, NetDiskError, NetDiskResult};
use crate::text::{clone_pairs, owned, pairs_view, str_starts_with, starts_with_seq};

verus! {

/// The duration that `Duration::from_secs` gives for a number of seconds.
pub uninterp spec fn duration_of_secs(secs: u64) -> Duration;

/// `Duration::from_secs`: the duration of `secs` whole seconds; the contract
/// names the result, which depends on `secs` alone.
#[verifier::external_body]
pub(crate) fn secs(n: u64) -> (d: Duration)
    ensures
        d == duration_of_secs(n),
{
    Duration::from_secs(n)
}

/// HTTP client configuration
#[derive(Debug)]
pub struct HttpClientConfig {
    /// Request timeout
    pub timeout: Duration,
    /// Connection timeout
    pub connect_timeout: Duration,
    /// Maximum number of retries
    pub max_retries: usize,
    /// Retry delay in milliseconds
    pub retry_delay_ms: u64,
    /// User agent
    pub user_agent: String,
    /// Whether to follow redirects
    pub follow_redirects: bool,
    /// Maximum number of redirects
    pub max_redirects: usize,
}

impl Default for HttpClientConfig {
    fn default() -> (c: Self)
        ensures
            c.timeout == duration_of_secs(30),
            c.connect_timeout == duration_of_secs(10),
            c.max_retries == 3,
            c.retry_delay_ms == 1000,
            c.user_agent@ == "pan.baidu.com"@,
            c.follow_redirects,
            c.max_redirects == 10,
    {
        HttpClientConfig {
            timeout: secs(30),
            connect_timeout: secs(10),
            max_retries: 3,
            retry_delay_ms: 1000,
            user_agent: owned("pan.baidu.com"),
            follow_redirects: true,
            max_redirects: 10,
        }
    }
}

impl Clone for HttpClientConfig {
    fn clone(&self) -> (c: Self)
        ensures
            c.timeout == self.timeout,
            c.connect_timeout == self.connect_timeout,
            c.max_retries == self.max_retries,
            c.retry_delay_ms == self.retry_delay_ms,
            c.user_agent@ == self.user_agent@,
            c.follow_redirects == self.follow_redirects,
            c.max_redirects == self.max_redirects,
    {
        HttpClientConfig {
            timeout: self.timeout,
            connect_timeout: self.connect_timeout,
            max_retries: self.max_retries,
            retry_delay_ms: self.retry_delay_ms,
            user_agent: self.user_agent.clone(),
            follow_redirects: self.follow_redirects,
            max_redirects: self.max_redirects,
        }
    }
}

/// Where a request goes.
#[derive(Debug)]
pub enum RequestTarget {
    /// An absolute URL, used as it is: the query parameters are not added.
    Absolute { url: String },
    /// A path below the API host, with the query parameters to append.
    Relative { path: String, query: Vec<(String, String)> },
}

/// The view of optional query parameters: none counts as an empty list.
pub open spec fn params_or_empty(params: Option<&Vec<(String, String)>>) -> Seq<(String, String)> {
    match params {
        Some(p) => p@,
        None => Seq::empty(),
    }
}

/// A URL that starts with `http` is absolute; anything else is a path below
/// the API host.
pub open spec fn is_absolute_url(url: Seq<char>) -> bool {
    starts_with_seq(url, "http"@)
}

/// Where a request for `url` with `params` goes: an absolute URL as it is,
/// else the path with the parameters (none when not given).
pub fn request_target(url: &str, params: Option<&Vec<(String, String)>>) -> (t: RequestTarget)
    ensures
        is_absolute_url(url@) ==> (t matches RequestTarget::Absolute { url: u } && u@ == url@),
        !is_absolute_url(url@) ==> (t matches RequestTarget::Relative { path, query } && path@
            == url@ && pairs_view(query@) == pairs_view(params_or_empty(params))),
{
    if str_starts_with(url, "http") {
        RequestTarget::Absolute { url: owned(url) }
    } else {
        let query = match params {
            Some(p) => clone_pairs(p),
            None => Vec::new(),
        };
        RequestTarget::Relative { path: owned(url), query }
    }
}

/// The host that relative request paths are resolved against.
pub const API_BASE: &'static str = "https://pan.baidu.com";

/// The serialization of a URL as `url::Url::parse` reads it, or `None` when
/// the text is not a valid URL.
pub uninterp spec fn parsed_url(text: Seq<char>) -> Option<Seq<char>>;

/// The serialization of `path` resolved against the URL `base`
/// (`url::Url::join`), or `None` when either does not parse.
pub uninterp spec fn joined_url(base: Seq<char>, path: Seq<char>) -> Option<Seq<char>>;

/// The serialization of the URL `url` with the pairs appended to its query
/// (`form_urlencoded::Serializer::append_pair` through `Url::query_pairs_mut`),
/// or `None` when `url` does not parse.
pub uninterp spec fn url_with_query(url: Seq<char>, pairs: Seq<(Seq<char>, Seq<char>)>) -> Option<
    Seq<char>,
>;

/// Parses a URL (`url::Url::parse`) and gives back its serialization.
///
/// The result is named: URL parsing normalizes the text in ways not restated
/// here.
#[verifier::external_body]
fn parse_url(text: &str) -> (r: Result<String, url::ParseError>)
    ensures
        match r {
            Ok(u) => parsed_url(text@) == Some(u@),
            Err(_) => parsed_url(text@) is None,
        },
{
    url::Url::parse(text).map(|u| u.to_string())
}

/// Resolves a path against a base URL (`url::Url::join`, the base read with
/// `Url::parse`) and gives back the serialization of the result.
#[verifier::external_body]
fn join_url(base: &str, path: &str) -> (r: Result<String, url::ParseError>)
    ensures
        match r {
            Ok(u) => joined_url(base@, path@) == Some(u@),
            Err(_) => joined_url(base@, path@) is None,
        },
{
    url::Url::parse(base)?.join(path).map(|u| u.to_string())
}

/// Appends pairs to the query of a URL (`append_pair` on
/// `Url::query_pairs_mut`, the URL read with `Url::parse`) and gives back
/// the serialization of the result.
#[verifier::external_body]
fn append_query(url: &str, pairs: &Vec<(String, String)>) -> (r: Result<String, url::ParseError>)
    ensures
        match r {
            Ok(u) => url_with_query(url@, pairs_view(pairs@)) == Some(u@),
            Err(_) => url_with_query(url@, pairs_view(pairs@)) is None,
        },
{
    let mut u = url::Url::parse(url)?;
    for (key, value) in pairs.iter() {
        u.query_pairs_mut().append_pair(key, value);
    }
    Ok(u.to_string())
}

/// The outcome of a URL operation: the URL, or a URL parsing error.
pub open spec fn url_outcome(u: Option<Seq<char>>, r: NetDiskResult<String>) -> bool {
    match u {
        Some(s) => r matches Ok(v) && v@ == s,
        None => r matches Err(e) && e is UrlParseError,
    }
}

/// The URL of a request for a relative path with query pairs: the path
/// resolved against `base`, with the pairs appended when there are any.
pub open spec fn relative_url(base: Seq<char>, path: Seq<char>, query: Seq<(Seq<char>, Seq<char>)>) -> Option<
    Seq<char>,
> {
    match joined_url(base, path) {
        Some(j) => if query.len() == 0 {
            Some(j)
        } else {
            url_with_query(j, query)
        },
        None => None,
    }
}

/// The URL a request for `url` with `params` goes to: an absolute URL as it
/// parses (the parameters are not added); a path resolved against `base`,
/// with the parameters appended to its query when there are any.
pub fn request_url(base: &str, url: &str, params: Option<&Vec<(String, String)>>) -> (r: NetDiskResult<
    String,
>)
    ensures
        is_absolute_url(url@) ==> url_outcome(parsed_url(url@), r),
        !is_absolute_url(url@) ==> url_outcome(
            relative_url(base@, url@, pairs_view(params_or_empty(params))),
            r,
        ),
{
    match request_target(url, params) {
        RequestTarget::Absolute { url } => match parse_url(url.as_str()) {
            Ok(u) => Ok(u),
            Err(e) => Err(NetDiskError::UrlParseError(e)),
        },
        RequestTarget::Relative { path, query } => {
            let joined = match join_url(base, path.as_str()) {
                Ok(j) => j,
                Err(e) => {
                    return Err(NetDiskError::UrlParseError(e));
                },
            };
            if query.len() == 0 {
                Ok(joined)
            } else {
                match append_query(joined.as_str(), &query) {
                    Ok(u) => Ok(u),
                    Err(e) => Err(NetDiskError::UrlParseError(e)),
                }
            }
        },
    }
}

/// A URL as it parses, or the URL parsing error when it does not.
pub fn parse_request_url(url: &str) -> (r: NetDiskResult<String>)
    ensures
        url_outcome(parsed_url(url@), r),
{
    match parse_url(url) {
        Ok(u) => Ok(u),
        Err(e) => Err(NetDiskError::UrlParseError(e)),
    }
}

/// The URL `url` with the pairs appended to its query, or the URL parsing
/// error when `url` does not parse.
pub fn url_with_params(url: &str, params: &Vec<(String, String)>) -> (r: NetDiskResult<String>)
    ensures
        url_outcome(url_with_query(url@, pairs_view(params@)), r),
{
    match append_query(url, params) {
        Ok(u) => Ok(u),
        Err(e) => Err(NetDiskError::UrlParseError(e)),
    }
}

/// An HTTP status of the 5xx class, a server error.
pub open spec fn is_server_status(status: u16) -> bool {
    500 <= status <= 599
}

/// An HTTP status of the 2xx class, a success.
pub open spec fn is_success_status(status: u16) -> bool {
    200 <= status <= 299
}

/// Whether a response status counts as a success: the 2xx class.
pub fn status_is_success(status: u16) -> (r: bool)
    ensures
        r == is_success_status(status),
{
    200 <= status && status <= 299
}

/// Whether a request that got no response may be tried again: it timed out,
/// could not connect, or its body broke off.
pub fn failure_is_retryable(is_timeout: bool, is_connect: bool, is_body: bool) -> (r: bool)
    ensures
        r == (is_timeout || is_connect || is_body),
{
    is_timeout || is_connect || is_body
}

/// How one attempt of a request turned out.
#[derive(Debug, Clone, Copy)]
pub enum AttemptOutcome {
    /// A response came back with this status.
    Response { status: u16 },
    /// No response came back; `retryable` when the failure was a timeout, a
    /// failed connection or a broken body.
    Failure { retryable: bool },
}

/// What to do after an attempt.
#[derive(PartialEq, Eq, Structural, Debug, Clone, Copy)]
pub enum RetryAction {
    /// Wait this many milliseconds, then make the next attempt.
    RetryAfter { delay_ms: u64 },
    /// Interpret the response that came back.
    Interpret,
    /// Give up with the failure.
    Fail,
}

/// The attempt (the `attempt`-th, counting from 1) is followed by another:
/// fewer than `max_retries` retries were made (the attempt is at most the
/// `max_retries`-th) and it met a server error or a retryable failure.
pub open spec fn retry_wanted(attempt: nat, max_retries: nat, outcome: AttemptOutcome) -> bool {
    attempt <= max_retries && match outcome {
        AttemptOutcome::Response { status } => is_server_status(status),
        AttemptOutcome::Failure { retryable } => retryable,
    }
}

/// What follows the `attempt`-th attempt of a request made with `config`:
/// another attempt after the configured delay when `retry_wanted`, else the
/// response is interpreted or the failure returned.
pub fn next_action(config: &HttpClientConfig, attempt: usize, outcome: &AttemptOutcome) -> (a:
    RetryAction)
    ensures
        retry_wanted(attempt as nat, config.max_retries as nat, *outcome) ==> a
            == (RetryAction::RetryAfter { delay_ms: config.retry_delay_ms }),
        !retry_wanted(attempt as nat, config.max_retries as nat, *outcome) ==> a == (
        match *outcome {
            AttemptOutcome::Response { .. } => RetryAction::Interpret,
            AttemptOutcome::Failure { .. } => RetryAction::Fail,
        }),
{
    match outcome {
        AttemptOutcome::Response { status } => {
            if *status >= 500 && *status <= 599 && attempt <= config.max_retries {
                RetryAction::RetryAfter { delay_ms: config.retry_delay_ms }
            } else {
                RetryAction::Interpret
            }
        },
        AttemptOutcome::Failure { retryable } => {
            if attempt <= config.max_retries && *retryable {
                RetryAction::RetryAfter { delay_ms: config.retry_delay_ms }
            } else {
                RetryAction::Fail
            }
        },
    }
}

/// The number of attempts a request makes when its attempts turn out as
/// `outcomes`, one per attempt in order, once `done` of them were made.
pub open spec fn attempts_made(done: nat, max_retries: nat, outcomes: Seq<AttemptOutcome>) -> nat
    decreases outcomes.len() - done,
{
    if done >= outcomes.len() {
        done
    } else if retry_wanted(done + 1, max_retries, outcomes[done as int]) {
        attempts_made(done + 1, max_retries, outcomes)
    } else {
        done + 1
    }
}

/// An outcome that asks for another attempt: a server error or a retryable
/// failure.
pub open spec fn is_retryable(outcome: AttemptOutcome) -> bool {
    match outcome {
        AttemptOutcome::Response { status } => is_server_status(status),
        AttemptOutcome::Failure { retryable } => retryable,
    }
}

proof fn attempts_bounded_from(done: nat, max_retries: nat, outcomes: Seq<AttemptOutcome>)
    requires
        done <= max_retries,
    ensures
        attempts_made(done, max_retries, outcomes) <= max_retries + 1,
        done <= attempts_made(done, max_retries, outcomes),
        outcomes.len() > max_retries && (forall|i: int|
            0 <= i < outcomes.len() ==> is_retryable(#[trigger] outcomes[i])) ==> attempts_made(
            done,
            max_retries,
            outcomes,
        ) == max_retries + 1,
    decreases outcomes.len() - done,
{
    if done < outcomes.len() && retry_wanted(done + 1, max_retries, outcomes[done as int]) {
        attempts_bounded_from(done + 1, max_retries, outcomes);
    }
}

/// A request is attempted at most `max_retries + 1` times: the first try and
/// at most `max_retries` retries, whatever its attempts turn out to be; and
/// when every attempt meets a server error or a retryable failure, exactly
/// that many.
pub proof fn lemma_attempts_bounded(max_retries: nat, outcomes: Seq<AttemptOutcome>)
    ensures
        attempts_made(0, max_retries, outcomes) <= max_retries + 1,
        outcomes.len() > max_retries && (forall|i: int|
            0 <= i < outcomes.len() ==> is_retryable(#[trigger] outcomes[i])) ==> attempts_made(
            0,
            max_retries,
            outcomes,
        ) == max_retries + 1,
{
    attempts_bounded_from(0, max_retries, outcomes);
}

/// The error a failed response becomes: the API error its body carries when
/// it reads as an API error, else the authentication error it describes when
/// it reads as one, else an HTTP error with its status and URL.
pub fn error_response(
    status: u16,
    url: &str,
    api_error: Option<&ApiErrorResponse>,
    auth_error: Option<&AuthErrorResponse>,
) -> (e: NetDiskError)
    ensures
        api_error matches Some(a) ==> is_api_error(
            e,
            a.spec_errno(),
            api_error_message(a.spec_errno(), a.spec_errmsg()),
        ),
        api_error is None ==> (auth_error matches Some(a) ==> is_auth_error_with(
            e,
            a.error_description@,
        )),
        api_error is None && auth_error is None ==> (e matches NetDiskError::HttpError {
            status_code: s,
            url: u,
            source: None,
        } && s == status && u@ == url@),
{
    match api_error {
        Some(a) => NetDiskError::api_error(a.get_errno(), a.get_errmsg()),
        None => match auth_error {
            Some(a) => NetDiskError::auth_error(&a.error_description),
            None => NetDiskError::http_error(status, url),
        },
    }
}

} // verus!
