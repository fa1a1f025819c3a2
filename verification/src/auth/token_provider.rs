//! Token provider: the stored access token, its status, when it needs a
//! refresh, and the decisions of getting a valid token.
use vstd::prelude::*;

use super::{unix_now_secs, AccessToken, AccessTokenResponse, TokenStatus};
use crate::encoding::{form_encode_pairs, form_error_text, form_urlencode};
use crate::errors::{
    is_auth_error_with, is_unknown_error_with, unknown_after, NetDiskError,
    NetDiskResult,
};
use crate::text::{owned, pair, pairs_view};

verus! {

/// Configuration for TokenProvider
///
/// Customizes token refresh behavior
#[derive(Debug, Clone, Copy)]
pub struct TokenProviderConfig {
    /// Whether to automatically refresh tokens
    pub auto_refresh: bool,
    /// Refresh token ahead of expiration by this many seconds
    pub refresh_ahead_seconds: u64,
    /// Maximum number of retry attempts for refresh
    pub max_refresh_retries: usize,
}

impl Default for TokenProviderConfig {
    fn default() -> (c: Self)
        ensures
            c.auto_refresh,
            c.refresh_ahead_seconds == 86400,
            c.max_refresh_retries == 3,
    {
        TokenProviderConfig { auto_refresh: true, refresh_ahead_seconds: 86400, max_refresh_retries: 3 }
    }
}

/// The access string a stored token yields, if any token is stored.
pub open spec fn stored_access_token(token: Option<AccessToken>) -> Option<Seq<char>> {
    match token {
        Some(t) => Some(t.access_token@),
        None => None,
    }
}

/// The status of the stored token at `now`; no token counts as expired.
pub open spec fn stored_status_at(token: Option<AccessToken>, now: u64) -> TokenStatus {
    match token {
        Some(t) => t.spec_status_at(now),
        None => TokenStatus::Expired,
    }
}

/// Whether the stored token needs a refresh at `now`: when at most
/// `ahead` seconds are left, or when no token is stored.
pub open spec fn stored_needs_refresh_at(token: Option<AccessToken>, ahead: u64, now: u64) -> bool {
    match token {
        Some(t) => t.spec_remaining_at(now) <= ahead,
        None => true,
    }
}

/// What getting a valid token has to do, decided from the stored token.
pub enum TokenPlan {
    /// Hand out this token as it is.
    Use(AccessToken),
    /// Refresh; if the refresh fails, hand out this token, which is still usable.
    RefreshOrUse(AccessToken),
    /// Refresh; the stored token has expired.
    MustRefresh,
}

/// The plan for getting a valid token at `now`, refreshing `ahead` seconds
/// before expiry: with auto refresh on, a token with at most `ahead` seconds
/// left is refreshed (and, if the refresh fails, handed out as it is while
/// any time is left); with auto refresh off, an expired token is an error.
/// Any other token is handed out as it is. `None` stands for the error "No
/// access token available" (no token) or the error "Token is expired and
/// auto-refresh is disabled, please re-authenticate".
pub open spec fn spec_token_plan(token: Option<AccessToken>, auto_refresh: bool, ahead: u64, now: u64) -> Option<
    TokenPlan,
> {
    match token {
        None => None,
        Some(t) => {
            let left = t.spec_remaining_at(now);
            if auto_refresh && left <= ahead {
                if left == 0 {
                    Some(TokenPlan::MustRefresh)
                } else {
                    Some(TokenPlan::RefreshOrUse(t))
                }
            } else if !auto_refresh && left == 0 {
                None
            } else {
                Some(TokenPlan::Use(t))
            }
        },
    }
}

/// The base URL of the OAuth token endpoint.
pub open spec fn token_endpoint() -> Seq<char> {
    "https://openapi.baidu.com/oauth/2.0/token?"@
}

/// The query of a refresh request.
pub open spec fn refresh_query(refresh_token: Seq<char>, app_key: Seq<char>, app_secret: Seq<char>) -> Seq<
    (Seq<char>, Seq<char>),
> {
    seq![
        ("grant_type"@, "refresh_token"@),
        ("refresh_token"@, refresh_token),
        ("client_id"@, app_key),
        ("client_secret"@, app_secret),
    ]
}

/// Token Provider
///
/// Holds the access token of an application and decides when it must be
/// refreshed; the requests themselves are made by the caller.
#[derive(Debug)]
pub struct TokenProvider {
    app_key: String,
    app_secret: String,
    access_token: Option<AccessToken>,
    config: TokenProviderConfig,
}

impl TokenProvider {
    /// Every stored token has an expiry time that fits in a `u64`.
    #[verifier::type_invariant]
    spec fn inv(self) -> bool {
        self.access_token matches Some(t) ==> t.expiry_fits()
    }

    /// The stored token.
    pub closed spec fn token(&self) -> Option<AccessToken> {
        self.access_token
    }

    /// The application key.
    pub closed spec fn key(&self) -> Seq<char> {
        self.app_key@
    }

    /// The application secret.
    pub closed spec fn secret(&self) -> Seq<char> {
        self.app_secret@
    }

    /// The configuration.
    pub closed spec fn settings(&self) -> TokenProviderConfig {
        self.config
    }

    /// Create a new TokenProvider instance, with no token
    pub fn new(app_key: &str, app_secret: &str, config: TokenProviderConfig) -> (p: Self)
        ensures
            p.token() is None,
            p.key() == app_key@,
            p.secret() == app_secret@,
            p.settings() == config,
    {
        TokenProvider {
            app_key: app_key.to_string(),
            app_secret: app_secret.to_string(),
            access_token: None,
            config,
        }
    }

    /// The configuration.
    pub fn config(&self) -> (c: TokenProviderConfig)
        ensures
            c == self.settings(),
    {
        self.config
    }

    /// Get the access token string
    pub fn get_access_token(&self) -> (r: NetDiskResult<String>)
        ensures
            match r {
                Ok(s) => stored_access_token(self.token()) == Some(s@),
                Err(e) => self.token() is None && is_auth_error_with(
                    e,
                    "No access token available"@,
                ),
            },
    {
        match &self.access_token {
            Some(t) => Ok(t.access_token.clone()),
            None => Err(NetDiskError::auth_error("No access token available")),
        }
    }

    /// Get the full AccessToken object (internal use)
    pub fn get_access_token_full(&self) -> (r: NetDiskResult<Option<AccessToken>>)
        ensures
            r matches Ok(t) && t == self.token(),
    {
        match &self.access_token {
            Some(t) => Ok(Some(t.clone())),
            None => Ok(None),
        }
    }

    /// The status of the stored token at `now` (expired when none is stored).
    pub fn validate_token_at(&self, now: u64) -> (r: NetDiskResult<TokenStatus>)
        ensures
            r matches Ok(s) && s == stored_status_at(self.token(), now),
    {
        proof {
            use_type_invariant(self);
        }
        match &self.access_token {
            Some(t) => Ok(t.validate_at(now)),
            None => Ok(TokenStatus::Expired),
        }
    }

    /// Validate and get the current token status
    pub fn validate_token(&self) -> (r: NetDiskResult<TokenStatus>)
        ensures
            r matches Ok(s) && exists|now: u64| s == #[trigger] stored_status_at(self.token(), now),
    {
        let now = unix_now_secs();
        self.validate_token_at(now)
    }

    /// Set the access token
    pub fn set_access_token(&mut self, token: AccessToken) -> (r: NetDiskResult<()>)
        requires
            token.expiry_fits(),
        ensures
            r is Ok,
            final(self).token() == Some(token),
            final(self).key() == old(self).key(),
            final(self).secret() == old(self).secret(),
            final(self).settings() == old(self).settings(),
    {
        self.access_token = Some(token);
        Ok(())
    }

    /// Whether the stored token needs a refresh at `now`.
    pub fn needs_refresh_at(&self, now: u64) -> (r: NetDiskResult<bool>)
        ensures
            r matches Ok(b) && b == stored_needs_refresh_at(
                self.token(),
                self.settings().refresh_ahead_seconds,
                now,
            ),
    {
        proof {
            use_type_invariant(self);
        }
        match &self.access_token {
            Some(t) => Ok(t.remaining_seconds_at(now) <= self.config.refresh_ahead_seconds),
            None => Ok(true),
        }
    }

    /// Check if the token needs refresh
    pub fn needs_refresh(&self) -> (r: NetDiskResult<bool>)
        ensures
            r matches Ok(b) && exists|now: u64|
                b == #[trigger] stored_needs_refresh_at(
                    self.token(),
                    self.settings().refresh_ahead_seconds,
                    now,
                ),
    {
        let now = unix_now_secs();
        self.needs_refresh_at(now)
    }

    /// Clear the stored token
    pub fn clear_token(&mut self) -> (r: NetDiskResult<()>)
        ensures
            r is Ok,
            final(self).token() is None,
            final(self).key() == old(self).key(),
            final(self).secret() == old(self).secret(),
            final(self).settings() == old(self).settings(),
    {
        self.access_token = None;
        Ok(())
    }

    /// The URL of the request that refreshes the stored token: the token
    /// endpoint with the grant type, the refresh token and the application's
    /// credentials.
    pub fn refresh_request_url(&self) -> (r: NetDiskResult<String>)
        ensures
            self.token() is None ==> (r matches Err(e) && is_auth_error_with(
                e,
                "No access token to refresh"@,
            )),
            r matches Ok(url) ==> self.token() matches Some(t) && url@ == token_endpoint()
                + form_encode_pairs(refresh_query(t.refresh_token@, self.key(), self.secret())),
            self.token() is Some ==> r is Ok,
    {
        let refresh_token = match &self.access_token {
            Some(t) => t.refresh_token.clone(),
            None => {
                return Err(NetDiskError::auth_error("No access token to refresh"));
            },
        };
        let mut params: Vec<(String, String)> = Vec::new();
        params.push(pair("grant_type", owned("refresh_token")));
        params.push(pair("refresh_token", refresh_token));
        params.push(pair("client_id", self.app_key.clone()));
        params.push(pair("client_secret", self.app_secret.clone()));
        assert(pairs_view(params@) =~= refresh_query(
            self.token()->0.refresh_token@,
            self.key(),
            self.secret(),
        ));
        match form_urlencode(&params) {
            Ok(query) => {
                let mut url = owned("https://openapi.baidu.com/oauth/2.0/token?");
                url.append(query.as_str());
                Ok(url)
            },
            Err(e) => {
                let text = form_error_text(&e);
                Err(unknown_after("Failed to encode params: ", text.as_str()))
            },
        }
    }

    /// Stores the token of a refresh response received at `now` and returns it.
    pub fn complete_refresh_at(&mut self, response: AccessTokenResponse, now: u64) -> (t:
        AccessToken)
        requires
            now + response.expires_in <= u64::MAX,
        ensures
            t.acquired_from(response, now),
            final(self).token() == Some(t),
            final(self).key() == old(self).key(),
            final(self).secret() == old(self).secret(),
            final(self).settings() == old(self).settings(),
    {
        let t = AccessToken::from_response_at(response, now);
        self.access_token = Some(t.clone());
        t
    }

    /// The error a failed refresh reports: an authentication error that asks
    /// to re-authenticate, followed by the cause.
    pub fn refresh_failed_error(cause: &str) -> (e: NetDiskError)
        ensures
            is_auth_error_with(e, "Token refresh failed, please re-authenticate: "@ + cause@),
    {
        let mut message = owned("Token refresh failed, please re-authenticate: ");
        message.append(cause);
        NetDiskError::auth_error(message.as_str())
    }

    /// What getting a valid token has to do at `now`: with auto refresh on,
    /// refresh a token that has at most the configured number of seconds
    /// left (falling back on it while it has any time left); with auto
    /// refresh off, fail on an expired token; otherwise hand the token out as
    /// it is.
    pub fn plan_valid_token_at(&self, now: u64) -> (r: NetDiskResult<TokenPlan>)
        ensures
            match r {
                Ok(plan) => spec_token_plan(
                    self.token(),
                    self.settings().auto_refresh,
                    self.settings().refresh_ahead_seconds,
                    now,
                ) == Some(plan),
                Err(e) => spec_token_plan(
                    self.token(),
                    self.settings().auto_refresh,
                    self.settings().refresh_ahead_seconds,
                    now,
                ) is None && (if self.token() is None {
                    is_auth_error_with(e, "No access token available"@)
                } else {
                    is_auth_error_with(
                        e,
                        "Token is expired and auto-refresh is disabled, please re-authenticate"@,
                    )
                }),
            },
    {
        proof {
            use_type_invariant(self);
        }
        let token = match &self.access_token {
            Some(t) => t.clone(),
            None => {
                return Err(NetDiskError::auth_error("No access token available"));
            },
        };
        let left = token.remaining_seconds_at(now);
        if self.config.auto_refresh && left <= self.config.refresh_ahead_seconds {
            if left == 0 {
                Ok(TokenPlan::MustRefresh)
            } else {
                Ok(TokenPlan::RefreshOrUse(token))
            }
        } else if !self.config.auto_refresh && left == 0 {
            Err(
                NetDiskError::auth_error(
                    "Token is expired and auto-refresh is disabled, please re-authenticate",
                ),
            )
        } else {
            Ok(TokenPlan::Use(token))
        }
    }
}

/// The token that getting a valid token hands out, once the plan has been
/// carried out: the planned token when no refresh was planned; the refreshed
/// token, or the old one if the refresh failed, for a token with time left;
/// the refresh's own outcome for an expired token.
pub fn settle_valid_token(plan: TokenPlan, refreshed: NetDiskResult<AccessToken>) -> (r:
    NetDiskResult<AccessToken>)
    ensures
        plan matches TokenPlan::Use(t) ==> (r matches Ok(u) && u == t),
        plan matches TokenPlan::RefreshOrUse(t) ==> (r matches Ok(u) && match refreshed {
            Ok(n) => u == n,
            Err(_) => u == t,
        }),
        plan is MustRefresh ==> r == refreshed,
{
    match plan {
        TokenPlan::Use(t) => Ok(t),
        TokenPlan::RefreshOrUse(t) => match refreshed {
            Ok(n) => Ok(n),
            Err(_) => Ok(t),
        },
        TokenPlan::MustRefresh => refreshed,
    }
}

/// The outcome of a refresh attempt that may not fail: the new token, or
/// nothing when the refresh failed.
pub fn settle_try_refresh(refreshed: NetDiskResult<AccessToken>) -> (r: NetDiskResult<
    Option<AccessToken>,
>)
    ensures
        r matches Ok(o) && match refreshed {
            Ok(t) => o == Some(t),
            Err(_) => o is None,
        },
{
    match refreshed {
        Ok(t) => Ok(Some(t)),
        Err(_) => Ok(None),
    }
}

/// Once a token is set, reading the provider gives its access string back,
/// its status is the token's own, and it needs a refresh exactly when at most
/// the configured number of seconds are left.
pub proof fn lemma_read_after_set(t: AccessToken, ahead: u64, now: u64)
    ensures
        stored_access_token(Some(t)) == Some(t.access_token@),
        stored_status_at(Some(t), now) == t.spec_status_at(now),
        stored_needs_refresh_at(Some(t), ahead, now) == (t.spec_remaining_at(now) <= ahead),
{
}

/// Once the token is cleared, no access string can be read, the status is
/// expired and a refresh is needed.
pub proof fn lemma_read_after_clear(ahead: u64, now: u64)
    ensures
        stored_access_token(None) is None,
        stored_status_at(None, now) == TokenStatus::Expired,
        stored_needs_refresh_at(None, ahead, now),
{
}

/// With auto refresh off, getting a valid token never plans a refresh; with
/// it on, a token with at most `ahead` seconds left is always refreshed; and
/// a token handed out without a refresh is the stored one, has not expired,
/// and (with auto refresh on) has more than `ahead` seconds left.
pub proof fn lemma_plan_respects_settings(
    token: Option<AccessToken>,
    auto_refresh: bool,
    ahead: u64,
    now: u64,
)
    ensures
        !auto_refresh ==> match spec_token_plan(token, auto_refresh, ahead, now) {
            Some(TokenPlan::Use(_)) => true,
            None => true,
            _ => false,
        },
        auto_refresh ==> (token matches Some(t) && t.spec_remaining_at(now) <= ahead ==> match spec_token_plan(
            token,
            auto_refresh,
            ahead,
            now,
        ) {
            Some(TokenPlan::RefreshOrUse(_)) => true,
            Some(TokenPlan::MustRefresh) => true,
            _ => false,
        }),
        spec_token_plan(token, auto_refresh, ahead, now) matches Some(TokenPlan::Use(t)) ==> token
            == Some(t) && t.spec_status_at(now) != TokenStatus::Expired && (auto_refresh
            ==> t.spec_remaining_at(now) > ahead),
        spec_token_plan(token, auto_refresh, ahead, now) matches Some(TokenPlan::RefreshOrUse(t))
            ==> token == Some(t) && t.spec_remaining_at(now) > 0,
{
}

/// With auto refresh off, getting a valid token hands out the stored token
/// unchanged as long as it has any time left (its expiry, `acquired_at +
/// expires_in`, lies after `now`), however near that expiry is; it fails only
/// when there is no token or the token has expired.
pub proof fn lemma_manual_mode_hands_out_live_token(
    token: Option<AccessToken>,
    ahead: u64,
    now: u64,
)
    ensures
        token matches Some(t) ==> (now < t.acquired_at + t.expires_in ==> spec_token_plan(
            token,
            false,
            ahead,
            now,
        ) == Some(TokenPlan::Use(t))),
        spec_token_plan(token, false, ahead, now) is None <==> (token is None || (token matches Some(
            t,
        ) && now >= t.acquired_at + t.expires_in)),
{
}

/// With auto refresh on, a token with more than `ahead` seconds left is
/// handed out unchanged, one that has expired must be refreshed, one with
/// some but at most `ahead` seconds left is refreshed with the token itself
/// to fall back on, and a plan exists for every stored token: only a missing
/// token fails.
pub proof fn lemma_auto_mode_plans_every_token(token: Option<AccessToken>, ahead: u64, now: u64)
    ensures
        token matches Some(t) ==> (now + ahead < t.acquired_at + t.expires_in ==> spec_token_plan(
            token,
            true,
            ahead,
            now,
        ) == Some(TokenPlan::Use(t))),
        token matches Some(t) ==> (now >= t.acquired_at + t.expires_in ==> spec_token_plan(
            token,
            true,
            ahead,
            now,
        ) == Some(TokenPlan::MustRefresh)),
        token matches Some(t) ==> (now < t.acquired_at + t.expires_in <= now + ahead
            ==> spec_token_plan(token, true, ahead, now) == Some(TokenPlan::RefreshOrUse(t))),
        spec_token_plan(token, true, ahead, now) is None <==> token is None,
{
}

} // verus!
