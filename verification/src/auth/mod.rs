//! Authentication and token management: device codes, access tokens and their
//! validity over time, and the API's error response bodies.
pub mod authorization;
pub mod token_provider;

use vstd::prelude::*;

pub use self::authorization::Authorization;
pub use self::token_provider::{TokenProvider, TokenProviderConfig};

verus! {

/// Reads the system clock (`SystemTime::now`): the seconds elapsed since the
/// Unix epoch, or 0 when the clock stands before the epoch.
///
/// Nothing is stated of the value: it is whatever the machine's clock says.
#[verifier::external_body]
pub(crate) fn unix_now_secs() -> (now: u64) {
    std::time::SystemTime::now().duration_since(std::time::UNIX_EPOCH).unwrap_or_default().as_secs()
}

/// Device code response from Baidu OAuth API
#[derive(Debug)]
pub struct DeviceCodeResponse {
    /// Device code for polling
    pub device_code: String,
    /// User code for user input
    pub user_code: String,
    /// Verification URL for user to visit
    pub verification_url: String,
    /// QR code URL for scanning
    pub qrcode_url: String,
    /// Polling interval in seconds
    pub interval: u32,
    /// Expiration time in seconds
    pub expires_in: u32,
}

/// Device code information with expiration timestamp
#[derive(Debug)]
pub struct DeviceCode {
    pub device_code: String,
    pub user_code: String,
    pub verification_url: String,
    pub qrcode_url: String,
    pub interval: u32,
    pub expires_at: u64,
}

impl DeviceCode {
    /// The device code of a response received at time `now`: it expires
    /// `expires_in` seconds after `now`.
    pub open spec fn received_at(self, response: DeviceCodeResponse, now: u64) -> bool {
        &&& self.device_code@ == response.device_code@
        &&& self.user_code@ == response.user_code@
        &&& self.verification_url@ == response.verification_url@
        &&& self.qrcode_url@ == response.qrcode_url@
        &&& self.interval == response.interval
        &&& self.expires_at == now + response.expires_in
    }

    /// The device code of a response received at time `now`.
    pub fn from_response_at(response: DeviceCodeResponse, now: u64) -> (d: DeviceCode)
        requires
            now + response.expires_in <= u64::MAX,
        ensures
            d.received_at(response, now),
    {
        let expires_at = now + response.expires_in as u64;
        DeviceCode {
            device_code: response.device_code,
            user_code: response.user_code,
            verification_url: response.verification_url,
            qrcode_url: response.qrcode_url,
            interval: response.interval,
            expires_at,
        }
    }

    /// The device code of a response received now, by the system clock.
    ///
    /// A clock so late that the expiry time does not fit in `u64` yields the
    /// latest representable time.
    pub fn from_response(response: DeviceCodeResponse) -> (d: DeviceCode)
        ensures
            exists|now: u64| #[trigger] d.received_at(response, now),
    {
        let clock = unix_now_secs();
        let now = if clock > u64::MAX - response.expires_in as u64 {
            u64::MAX - response.expires_in as u64
        } else {
            clock
        };
        let ghost r = response;
        let d = DeviceCode::from_response_at(response, now);
        assert(d.received_at(r, now));
        d
    }
}

/// Access token response from Baidu OAuth API
#[derive(Debug)]
pub struct AccessTokenResponse {
    /// Access token for API requests
    pub access_token: String,
    /// Expiration time in seconds (typically 2592000 seconds = 30 days)
    pub expires_in: u64,
    /// Refresh token for obtaining new access token
    pub refresh_token: String,
    /// Scope of permissions (e.g., "basic netdisk")
    pub scope: String,
    /// Session key for signed API requests (may be empty string)
    pub session_key: String,
    /// Session secret for signed API requests (may be empty string)
    pub session_secret: String,
}

/// Token validation status
#[derive(Debug, Clone, Copy, PartialEq, Eq, Structural)]
pub enum TokenStatus {
    /// Token is valid and has plenty of time left
    Valid,
    /// Token will expire soon (within 5 minutes)
    ExpiringSoon,
    /// Token has already expired
    Expired,
}

/// How much validity a status means: 2 for valid, 1 for expiring soon, 0 for
/// expired.
pub open spec fn status_rank(s: TokenStatus) -> int {
    match s {
        TokenStatus::Valid => 2,
        TokenStatus::ExpiringSoon => 1,
        TokenStatus::Expired => 0,
    }
}

/// Access token information with acquisition timestamp
#[derive(Debug)]
pub struct AccessToken {
    /// Access token for API requests
    pub access_token: String,
    /// Expiration time in seconds
    pub expires_in: u64,
    /// Refresh token for obtaining new access token
    pub refresh_token: String,
    /// Scope of permissions
    pub scope: String,
    /// Session key for signed API requests
    pub session_key: String,
    /// Session secret for signed API requests
    pub session_secret: String,
    /// Acquisition timestamp in seconds
    pub acquired_at: u64,
}

impl Clone for AccessToken {
    fn clone(&self) -> (r: Self)
        ensures
            r == *self,
    {
        AccessToken {
            access_token: self.access_token.clone(),
            expires_in: self.expires_in,
            refresh_token: self.refresh_token.clone(),
            scope: self.scope.clone(),
            session_key: self.session_key.clone(),
            session_secret: self.session_secret.clone(),
            acquired_at: self.acquired_at,
        }
    }
}

impl AccessToken {
    /// The expiry time, `acquired_at + expires_in`, as an integer.
    pub open spec fn spec_expires_at(&self) -> int {
        self.acquired_at + self.expires_in
    }

    /// The expiry time fits in a `u64`.
    pub open spec fn expiry_fits(&self) -> bool {
        self.acquired_at + self.expires_in <= u64::MAX
    }

    /// Seconds of validity left at time `now` (never negative).
    pub open spec fn spec_remaining_at(&self, now: u64) -> nat {
        if now >= self.spec_expires_at() {
            0
        } else {
            (self.spec_expires_at() - now) as nat
        }
    }

    /// The status at time `now`: expired with no time left, expiring soon with
    /// at most 300 seconds left, valid otherwise.
    pub open spec fn spec_status_at(&self, now: u64) -> TokenStatus {
        let r = self.spec_remaining_at(now);
        if r == 0 {
            TokenStatus::Expired
        } else if r <= 300 {
            TokenStatus::ExpiringSoon
        } else {
            TokenStatus::Valid
        }
    }

    /// The token counts as expired at `now` when at most 60 seconds are left.
    pub open spec fn spec_is_expired_at(&self, now: u64) -> bool {
        now >= self.spec_expires_at() - 60
    }

    /// The token of a response acquired at time `now`.
    pub open spec fn acquired_from(self, response: AccessTokenResponse, now: u64) -> bool {
        &&& self.access_token@ == response.access_token@
        &&& self.expires_in == response.expires_in
        &&& self.refresh_token@ == response.refresh_token@
        &&& self.scope@ == response.scope@
        &&& self.session_key@ == response.session_key@
        &&& self.session_secret@ == response.session_secret@
        &&& self.acquired_at == now
    }

    /// The token of a response acquired at time `now`.
    pub fn from_response_at(response: AccessTokenResponse, now: u64) -> (t: AccessToken)
        ensures
            t.acquired_from(response, now),
    {
        AccessToken {
            access_token: response.access_token,
            expires_in: response.expires_in,
            refresh_token: response.refresh_token,
            scope: response.scope,
            session_key: response.session_key,
            session_secret: response.session_secret,
            acquired_at: now,
        }
    }

    /// The token of a response acquired now, by the system clock.
    pub fn from_response(response: AccessTokenResponse) -> (t: AccessToken)
        ensures
            exists|now: u64| #[trigger] t.acquired_from(response, now),
    {
        let now = unix_now_secs();
        AccessToken::from_response_at(response, now)
    }

    /// The token made from these values and acquired at time `now`, with no
    /// session key or secret.
    pub open spec fn issued_at(
        self,
        access_token: String,
        refresh_token: String,
        expires_in: u64,
        scope: String,
        now: u64,
    ) -> bool {
        &&& self.access_token == access_token
        &&& self.refresh_token == refresh_token
        &&& self.expires_in == expires_in
        &&& self.scope == scope
        &&& self.session_key@ == Seq::<char>::empty()
        &&& self.session_secret@ == Seq::<char>::empty()
        &&& self.acquired_at == now
    }

    /// Create a new AccessToken acquired at time `now`, with an empty session
    /// key and secret.
    pub fn new_at(
        access_token: String,
        refresh_token: String,
        expires_in: u64,
        scope: String,
        now: u64,
    ) -> (t: Self)
        ensures
            t.issued_at(access_token, refresh_token, expires_in, scope, now),
    {
        AccessToken {
            access_token,
            refresh_token,
            expires_in,
            scope,
            session_key: String::new(),
            session_secret: String::new(),
            acquired_at: now,
        }
    }

    /// Create a new AccessToken with the current timestamp
    ///
    /// # Arguments
    /// * `access_token` - The access token string
    /// * `refresh_token` - The refresh token string
    /// * `expires_in` - Expiration time in seconds
    /// * `scope` - Scope of permissions
    ///
    /// The acquisition time is the one reading of the system clock that the
    /// call makes.
    pub fn new(access_token: String, refresh_token: String, expires_in: u64, scope: String) -> (t:
        Self)
        ensures
            exists|now: u64| #[trigger] t.issued_at(access_token, refresh_token, expires_in, scope, now),
    {
        let now = unix_now_secs();
        AccessToken::new_at(access_token, refresh_token, expires_in, scope, now)
    }

    /// Create an AccessToken with all fields specified
    ///
    /// Use this when you need to set session_key, session_secret, or a specific acquired_at
    /// (e.g., for testing expired tokens)
    pub fn with_all(
        access_token: String,
        refresh_token: String,
        expires_in: u64,
        scope: String,
        session_key: String,
        session_secret: String,
        acquired_at: u64,
    ) -> (t: Self)
        ensures
            t == (AccessToken {
                access_token,
                expires_in,
                refresh_token,
                scope,
                session_key,
                session_secret,
                acquired_at,
            }),
    {
        AccessToken {
            access_token,
            refresh_token,
            expires_in,
            scope,
            session_key,
            session_secret,
            acquired_at,
        }
    }

    /// Whether the token is expired at time `now`: true when it has expired or
    /// will expire within 60 seconds.
    pub fn is_expired_at(&self, now: u64) -> (r: bool)
        ensures
            r == self.spec_is_expired_at(now),
    {
        (now as u128) + 60 >= (self.acquired_at as u128) + (self.expires_in as u128)
    }

    /// Check if the token is expired
    /// Returns true if token has expired or will expire within 60 seconds
    pub fn is_expired(&self) -> (r: bool)
        ensures
            exists|now: u64| r == #[trigger] self.spec_is_expired_at(now),
    {
        let now = unix_now_secs();
        self.is_expired_at(now)
    }

    /// Remaining valid seconds of the token at time `now`.
    pub fn remaining_seconds_at(&self, now: u64) -> (r: u64)
        requires
            self.expiry_fits(),
        ensures
            r == self.spec_remaining_at(now),
    {
        let expires_at = self.acquired_at + self.expires_in;
        expires_at.saturating_sub(now)
    }

    /// Get remaining valid seconds of the token
    pub fn remaining_seconds(&self) -> (r: u64)
        requires
            self.expiry_fits(),
        ensures
            exists|now: u64| r == #[trigger] self.spec_remaining_at(now),
    {
        let now = unix_now_secs();
        self.remaining_seconds_at(now)
    }

    /// The status of the token at time `now`.
    pub fn validate_at(&self, now: u64) -> (s: TokenStatus)
        requires
            self.expiry_fits(),
        ensures
            s == self.spec_status_at(now),
    {
        let remaining = self.remaining_seconds_at(now);
        if remaining == 0 {
            TokenStatus::Expired
        } else if remaining <= 300 {
            TokenStatus::ExpiringSoon
        } else {
            TokenStatus::Valid
        }
    }

    /// Validate the token and return its status
    pub fn validate(&self) -> (s: TokenStatus)
        requires
            self.expiry_fits(),
        ensures
            exists|now: u64| s == #[trigger] self.spec_status_at(now),
    {
        let now = unix_now_secs();
        self.validate_at(now)
    }

    /// Whether the token is valid (neither expired nor expiring soon) at `now`.
    pub fn is_valid_at(&self, now: u64) -> (r: bool)
        requires
            self.expiry_fits(),
        ensures
            r == (self.spec_status_at(now) == TokenStatus::Valid),
    {
        match self.validate_at(now) {
            TokenStatus::Valid => true,
            _ => false,
        }
    }

    /// Check if token is valid (not expired and not expiring soon)
    pub fn is_valid(&self) -> (r: bool)
        requires
            self.expiry_fits(),
        ensures
            exists|now: u64| r == (#[trigger] self.spec_status_at(now) == TokenStatus::Valid),
    {
        let now = unix_now_secs();
        self.is_valid_at(now)
    }

    /// Get expiration timestamp in seconds since epoch
    pub fn expires_at(&self) -> (r: u64)
        requires
            self.expiry_fits(),
        ensures
            r == self.spec_expires_at(),
    {
        self.acquired_at + self.expires_in
    }
}

/// A token is expired exactly when no time is left, which is exactly when the
/// clock has reached its expiry time.
pub proof fn lemma_expired_iff_no_time_left(t: AccessToken, now: u64)
    ensures
        (t.spec_status_at(now) == TokenStatus::Expired) <==> t.spec_remaining_at(now) == 0,
        t.spec_remaining_at(now) == 0 <==> now >= t.spec_expires_at(),
        now < t.spec_expires_at() ==> now + t.spec_remaining_at(now) == t.spec_expires_at(),
{
}

/// A token is valid exactly when more than 300 seconds are left.
pub proof fn lemma_valid_iff_more_than_five_minutes(t: AccessToken, now: u64)
    ensures
        (t.spec_status_at(now) == TokenStatus::Valid) <==> t.spec_remaining_at(now) > 300,
{
}

/// As time passes, the remaining time shrinks and the status only moves from
/// valid to expiring soon to expired, never back.
pub proof fn lemma_status_never_improves(t: AccessToken, earlier: u64, later: u64)
    requires
        earlier <= later,
    ensures
        t.spec_remaining_at(later) <= t.spec_remaining_at(earlier),
        status_rank(t.spec_status_at(later)) <= status_rank(t.spec_status_at(earlier)),
{
}

/// An expired token also counts as expired by the 60-second rule, and a token
/// that counts as expired by that rule is not valid.
pub proof fn lemma_expiry_rules_agree(t: AccessToken, now: u64)
    ensures
        t.spec_status_at(now) == TokenStatus::Expired ==> t.spec_is_expired_at(now),
        t.spec_is_expired_at(now) ==> t.spec_status_at(now) != TokenStatus::Valid,
{
}

/// API error response structure
///
/// Baidu NetDisk API may return error codes in different formats:
/// - `errno` and `errmsg` (common format)
/// - `error_code` and `error_msg` (alternative format)
///
/// All fields are optional to handle various response formats.
#[derive(Debug)]
pub struct ApiErrorResponse {
    /// Error code (format 1)
    pub errno: Option<i32>,
    /// Error message (format 1)
    pub errmsg: Option<String>,
    /// Alternative error code field (format 2)
    pub error_code: Option<i32>,
    /// Alternative error message field (format 2)
    pub error_msg: Option<String>,
}

impl Default for ApiErrorResponse {
    fn default() -> (r: Self)
        ensures
            r.errno is None && r.errmsg is None && r.error_code is None && r.error_msg is None,
    {
        ApiErrorResponse { errno: None, errmsg: None, error_code: None, error_msg: None }
    }
}

impl ApiErrorResponse {
    /// The error code: `error_code` if present, else `errno`, else -1.
    pub open spec fn spec_errno(&self) -> i32 {
        match self.error_code {
            Some(c) => c,
            None => match self.errno {
                Some(c) => c,
                None => -1i32,
            },
        }
    }

    /// The error message: `error_msg` if present, else `errmsg`, else
    /// "Unknown error".
    pub open spec fn spec_errmsg(&self) -> Seq<char> {
        match self.error_msg {
            Some(m) => m@,
            None => match self.errmsg {
                Some(m) => m@,
                None => "Unknown error"@,
            },
        }
    }

    /// Get error code, prioritizing error_code over errno
    pub fn get_errno(&self) -> (r: i32)
        ensures
            r == self.spec_errno(),
    {
        match self.error_code {
            Some(c) => c,
            None => match self.errno {
                Some(c) => c,
                None => -1,
            },
        }
    }

    /// Get error message, prioritizing error_msg over errmsg
    pub fn get_errmsg(&self) -> (r: &str)
        ensures
            r@ == self.spec_errmsg(),
    {
        match &self.error_msg {
            Some(m) => m.as_str(),
            None => match &self.errmsg {
                Some(m) => m.as_str(),
                None => "Unknown error",
            },
        }
    }

    /// Check if this response contains any error information
    pub fn has_error(&self) -> (r: bool)
        ensures
            r == (self.errno is Some || self.error_code is Some || self.errmsg is Some
                || self.error_msg is Some),
    {
        self.errno.is_some() || self.error_code.is_some() || self.errmsg.is_some()
            || self.error_msg.is_some()
    }
}

/// Authentication error response structure
#[derive(Debug)]
pub struct AuthErrorResponse {
    /// Error type
    pub error: String,
    /// Error description
    pub error_description: String,
}

/// User information response from Baidu NetDisk API
#[derive(Debug, Clone)]
pub struct UserInfo {
    /// Baidu account name
    pub baidu_name: String,
    /// NetDisk account name
    pub netdisk_name: String,
    /// Avatar URL
    pub avatar_url: String,
    /// VIP type: 0=normal, 1=VIP, 2=Super VIP
    pub vip_type: i32,
    /// User ID
    pub uk: u64,
}

/// Quota information response from Baidu NetDisk API
#[derive(Debug, Clone)]
pub struct QuotaInfo {
    /// Total storage capacity in bytes
    pub total: u64,
    /// Used storage capacity in bytes
    pub used: u64,
    /// Free storage capacity in bytes
    pub free: u64,
}

} // verus!
