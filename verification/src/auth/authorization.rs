//! Device code authorization: the requests of the OAuth 2.0 device code flow
//! and how a polling answer is interpreted.
use vstd::prelude::*;

use super::{AccessToken, AccessTokenResponse, DeviceCode};
use crate::encoding::{form_encode_pairs, form_error_text, form_urlencode};
use crate::errors::{unknown_after, NetDiskError, NetDiskResult};
use crate::text::{contains_seq, owned, pair, pairs_view, str_contains};

verus! {

/// The base URL of the device code endpoint.
pub open spec fn device_code_endpoint() -> Seq<char> {
    "https://openapi.baidu.com/oauth/2.0/device/code?"@
}

/// The base URL of the token endpoint.
pub open spec fn token_endpoint() -> Seq<char> {
    "https://openapi.baidu.com/oauth/2.0/token?"@
}

/// The query that asks for a device code.
pub open spec fn device_code_query(app_key: Seq<char>, scope: Seq<char>) -> Seq<
    (Seq<char>, Seq<char>),
> {
    seq![("response_type"@, "device_code"@), ("client_id"@, app_key), ("scope"@, scope)]
}

/// The query that polls for the token of a device code.
pub open spec fn device_token_query(code: Seq<char>, app_key: Seq<char>, app_secret: Seq<char>) -> Seq<
    (Seq<char>, Seq<char>),
> {
    seq![
        ("grant_type"@, "device_token"@),
        ("code"@, code),
        ("client_id"@, app_key),
        ("client_secret"@, app_secret),
    ]
}

/// The user has not authorized yet: the description mentions
/// `authorization_pending` or `slow_down`.
pub open spec fn is_pending(description: Seq<char>) -> bool {
    contains_seq(description, "authorization_pending"@) || contains_seq(description, "slow_down"@)
}

/// `r` answers a poll whose request ended in `answer` at `now`: the token
/// when one came; nothing (keep polling) on an authentication error that says
/// the user has not authorized yet; any other failure, such as an expired
/// device code or a timeout, returned as it came.
pub open spec fn poll_answered(
    answer: NetDiskResult<AccessTokenResponse>,
    now: u64,
    r: NetDiskResult<Option<AccessToken>>,
) -> bool {
    match answer {
        Ok(response) => r matches Ok(Some(t)) && t.acquired_from(response, now),
        Err(e) => if e matches NetDiskError::AuthError { description } && is_pending(description@) {
            r matches Ok(None)
        } else {
            r == Err::<Option<AccessToken>, NetDiskError>(e)
        },
    }
}

/// The URL of an endpoint with a form-encoded query.
fn endpoint_with_query(base: &str, params: &Vec<(String, String)>) -> (r: NetDiskResult<String>)
    ensures
        r matches Ok(url) && url@ == base@ + form_encode_pairs(pairs_view(params@)),
{
    match form_urlencode(params) {
        Ok(query) => {
            let mut url = base.to_string();
            url.append(query.as_str());
            Ok(url)
        },
        Err(e) => {
            let text = form_error_text(&e);
            Err(unknown_after("Failed to encode params: ", text.as_str()))
        },
    }
}

/// Device code authorization client
///
/// Provides the requests of the OAuth 2.0 device code flow
#[derive(Debug)]
pub struct Authorization {
    app_key: String,
    app_secret: String,
    scope: String,
}

impl Authorization {
    /// The application key.
    pub closed spec fn key(&self) -> Seq<char> {
        self.app_key@
    }

    /// The application secret.
    pub closed spec fn secret(&self) -> Seq<char> {
        self.app_secret@
    }

    /// The requested scope.
    pub closed spec fn requested_scope(&self) -> Seq<char> {
        self.scope@
    }

    /// Create a new Authorization instance
    pub fn new(app_key: &str, app_secret: &str, scope: &str) -> (a: Self)
        ensures
            a.key() == app_key@,
            a.secret() == app_secret@,
            a.requested_scope() == scope@,
    {
        Authorization {
            app_key: app_key.to_string(),
            app_secret: app_secret.to_string(),
            scope: scope.to_string(),
        }
    }

    /// The URL that asks for a device code: the device code endpoint with the
    /// response type, the application key and the scope.
    pub fn device_code_url(&self) -> (r: NetDiskResult<String>)
        ensures
            r matches Ok(url) && url@ == device_code_endpoint() + form_encode_pairs(
                device_code_query(self.key(), self.requested_scope()),
            ),
    {
        let mut params: Vec<(String, String)> = Vec::new();
        params.push(pair("response_type", owned("device_code")));
        params.push(pair("client_id", self.app_key.clone()));
        params.push(pair("scope", self.scope.clone()));
        assert(pairs_view(params@) =~= device_code_query(self.key(), self.requested_scope()));
        endpoint_with_query("https://openapi.baidu.com/oauth/2.0/device/code?", &params)
    }

    /// The URL that polls for the token of a device code: the token endpoint
    /// with the grant type, the device code and the application's credentials.
    pub fn access_token_url(&self, device_code: &DeviceCode) -> (r: NetDiskResult<String>)
        ensures
            r matches Ok(url) && url@ == token_endpoint() + form_encode_pairs(
                device_token_query(device_code.device_code@, self.key(), self.secret()),
            ),
    {
        let mut params: Vec<(String, String)> = Vec::new();
        params.push(pair("grant_type", owned("device_token")));
        params.push(pair("code", device_code.device_code.clone()));
        params.push(pair("client_id", self.app_key.clone()));
        params.push(pair("client_secret", self.app_secret.clone()));
        assert(pairs_view(params@) =~= device_token_query(
            device_code.device_code@,
            self.key(),
            self.secret(),
        ));
        endpoint_with_query("https://openapi.baidu.com/oauth/2.0/token?", &params)
    }
}

/// How one poll for the token is answered, given the outcome of the request
/// received at `now`.
pub fn access_token_outcome(answer: NetDiskResult<AccessTokenResponse>, now: u64) -> (r:
    NetDiskResult<Option<AccessToken>>)
    ensures
        poll_answered(answer, now, r),
{
    match answer {
        Ok(response) => Ok(Some(AccessToken::from_response_at(response, now))),
        Err(e) => {
            let pending = match &e {
                NetDiskError::AuthError { description } => str_contains(
                    description.as_str(),
                    "authorization_pending",
                ) || str_contains(description.as_str(), "slow_down"),
                _ => false,
            };
            if pending {
                Ok(None)
            } else {
                Err(e)
            }
        },
    }
}

/// A poll keeps waiting only while the user has not authorized: it answers
/// "nothing yet" exactly on an authentication error that says so, and every
/// other failure comes back unchanged.
pub proof fn lemma_poll_waits_only_while_pending(
    answer: NetDiskResult<AccessTokenResponse>,
    now: u64,
    r: NetDiskResult<Option<AccessToken>>,
)
    requires
        poll_answered(answer, now, r),
    ensures
        r matches Ok(None) <==> (answer matches Err(NetDiskError::AuthError { description })
            && is_pending(description@)),
        r is Err ==> answer is Err && r == Err::<Option<AccessToken>, NetDiskError>(
            answer->Err_0,
        ),
{
}

} // verus!
