//! Client configuration: the settings a client is built with, the builder
//! that checks them, and the access token that the environment describes.
use std::sync::Arc;
use std::time::Duration;
use vstd::prelude::*;

use crate::auth::token_provider::TokenProviderConfig;
use crate::auth::{unix_now_secs, AccessToken};
use crate::errors::{is_auth_error_with, NetDiskError, NetDiskResult};
use crate::http::HttpClientConfig;
use crate::text::{owned, parse_u64, parsed_u64};

verus! {

/// Client configuration
#[derive(Debug)]
pub struct ClientConfig {
    /// Application ID
    pub app_id: String,
    /// Application key (API Key)
    pub app_key: String,
    /// Application secret (Secret Key)
    pub app_secret: String,
    /// Application name
    pub app_name: String,
    /// Authorization scope
    pub scope: String,
    /// HTTP client configuration
    pub http_config: HttpClientConfig,
    /// Token provider configuration
    pub token_config: TokenProviderConfig,
}

impl ClientConfig {
    /// The configuration of an application with these credentials: the scope
    /// `basic,netdisk` and the default HTTP and token settings.
    pub fn with_credentials(app_id: String, app_key: String, app_secret: String, app_name: String) -> (c:
        ClientConfig)
        ensures
            c.app_id == app_id,
            c.app_key == app_key,
            c.app_secret == app_secret,
            c.app_name == app_name,
            c.scope@ == "basic,netdisk"@,
            c.http_config.max_retries == 3,
            c.http_config.retry_delay_ms == 1000,
            c.http_config.user_agent@ == "pan.baidu.com"@,
            c.http_config.follow_redirects,
            c.http_config.max_redirects == 10,
            c.http_config.timeout == crate::http::duration_of_secs(30),
            c.http_config.connect_timeout == crate::http::duration_of_secs(10),
            c.token_config.auto_refresh,
            c.token_config.refresh_ahead_seconds == 86400,
            c.token_config.max_refresh_retries == 3,
    {
        ClientConfig {
            app_id,
            app_key,
            app_secret,
            app_name,
            scope: owned("basic,netdisk"),
            http_config: HttpClientConfig::default(),
            token_config: TokenProviderConfig::default(),
        }
    }
}

/// Client builder
#[derive(Debug)]
pub struct ClientBuilder {
    pub config: ClientConfig,
}

impl ClientBuilder {
    /// A builder that starts from `config`.
    pub fn from_config(config: ClientConfig) -> (b: ClientBuilder)
        ensures
            b.config == config,
    {
        ClientBuilder { config }
    }

    /// Set application ID
    pub fn app_id(self, app_id: &str) -> (b: Self)
        ensures
            b.config.app_id@ == app_id@,
            b.config == (ClientConfig { app_id: b.config.app_id, ..self.config }),
    {
        let mut b = self;
        b.config.app_id = owned(app_id);
        b
    }

    /// Set application key
    pub fn app_key(self, app_key: &str) -> (b: Self)
        ensures
            b.config.app_key@ == app_key@,
            b.config == (ClientConfig { app_key: b.config.app_key, ..self.config }),
    {
        let mut b = self;
        b.config.app_key = owned(app_key);
        b
    }

    /// Set application secret
    pub fn app_secret(self, app_secret: &str) -> (b: Self)
        ensures
            b.config.app_secret@ == app_secret@,
            b.config == (ClientConfig { app_secret: b.config.app_secret, ..self.config }),
    {
        let mut b = self;
        b.config.app_secret = owned(app_secret);
        b
    }

    /// Set application name
    pub fn app_name(self, app_name: &str) -> (b: Self)
        ensures
            b.config.app_name@ == app_name@,
            b.config == (ClientConfig { app_name: b.config.app_name, ..self.config }),
    {
        let mut b = self;
        b.config.app_name = owned(app_name);
        b
    }

    /// Set authorization scope
    pub fn scope(self, scope: &str) -> (b: Self)
        ensures
            b.config.scope@ == scope@,
            b.config == (ClientConfig { scope: b.config.scope, ..self.config }),
    {
        let mut b = self;
        b.config.scope = owned(scope);
        b
    }

    /// Set request timeout
    pub fn timeout(self, timeout: Duration) -> (b: Self)
        ensures
            b.config == (ClientConfig {
                http_config: HttpClientConfig { timeout, ..self.config.http_config },
                ..self.config
            }),
    {
        let mut b = self;
        b.config.http_config.timeout = timeout;
        b
    }

    /// Set connection timeout
    pub fn connect_timeout(self, timeout: Duration) -> (b: Self)
        ensures
            b.config == (ClientConfig {
                http_config: HttpClientConfig { connect_timeout: timeout, ..self.config.http_config },
                ..self.config
            }),
    {
        let mut b = self;
        b.config.http_config.connect_timeout = timeout;
        b
    }

    /// Set maximum number of retries
    pub fn max_retries(self, max_retries: usize) -> (b: Self)
        ensures
            b.config == (ClientConfig {
                http_config: HttpClientConfig { max_retries, ..self.config.http_config },
                ..self.config
            }),
    {
        let mut b = self;
        b.config.http_config.max_retries = max_retries;
        b
    }

    /// Set user agent
    pub fn user_agent(self, user_agent: &str) -> (b: Self)
        ensures
            b.config.http_config.user_agent@ == user_agent@,
            b.config == (ClientConfig {
                http_config: HttpClientConfig {
                    user_agent: b.config.http_config.user_agent,
                    ..self.config.http_config
                },
                ..self.config
            }),
    {
        let mut b = self;
        b.config.http_config.user_agent = owned(user_agent);
        b
    }

    /// Set whether to auto-refresh tokens
    pub fn auto_refresh(self, auto_refresh: bool) -> (b: Self)
        ensures
            b.config == (ClientConfig {
                token_config: TokenProviderConfig { auto_refresh, ..self.config.token_config },
                ..self.config
            }),
    {
        let mut b = self;
        b.config.token_config.auto_refresh = auto_refresh;
        b
    }

    /// Set refresh ahead seconds
    pub fn refresh_ahead_seconds(self, seconds: u64) -> (b: Self)
        ensures
            b.config == (ClientConfig {
                token_config: TokenProviderConfig {
                    refresh_ahead_seconds: seconds,
                    ..self.config.token_config
                },
                ..self.config
            }),
    {
        let mut b = self;
        b.config.token_config.refresh_ahead_seconds = seconds;
        b
    }

    /// The configuration the client is built with, once checked: an empty
    /// application key, then an empty secret, is an invalid parameter.
    pub fn build_config(self) -> (r: NetDiskResult<ClientConfig>)
        ensures
            self.config.app_key@.len() == 0 ==> (r matches Err(
                NetDiskError::InvalidParameter { message },
            ) && message@ == "app_key is required"@),
            self.config.app_key@.len() != 0 && self.config.app_secret@.len() == 0 ==> (r matches Err(
                NetDiskError::InvalidParameter { message },
            ) && message@ == "app_secret is required"@),
            self.config.app_key@.len() != 0 && self.config.app_secret@.len() != 0 ==> r
                == Ok::<ClientConfig, NetDiskError>(self.config),
    {
        if self.config.app_key.as_str().is_empty() {
            return Err(NetDiskError::invalid_parameter("app_key is required"));
        }
        if self.config.app_secret.as_str().is_empty() {
            return Err(NetDiskError::invalid_parameter("app_secret is required"));
        }
        Ok(self.config)
    }
}

/// A token getter that always hands out the same token.
#[derive(Debug)]
pub struct StaticTokenGetter {
    token: Arc<AccessToken>,
}

impl StaticTokenGetter {
    /// The token this getter hands out.
    pub closed spec fn held(&self) -> AccessToken {
        *self.token
    }

    /// Create a new StaticTokenGetter
    pub fn new(token: AccessToken) -> (g: Self)
        ensures
            g.held() == token,
    {
        StaticTokenGetter { token: Arc::new(token) }
    }

    /// A copy of the held token.
    pub fn token(&self) -> (t: AccessToken)
        ensures
            t == self.held(),
    {
        (*self.token).clone()
    }
}

/// The token variables of the environment, each as read (`None` when it is
/// not set).
#[derive(Debug)]
pub struct TokenEnv {
    /// `BD_NETDISK_ACCESS_TOKEN`
    pub access_token: Option<String>,
    /// `BD_NETDISK_REFRESH_TOKEN`
    pub refresh_token: Option<String>,
    /// `BD_NETDISK_EXPIRES_IN`
    pub expires_in: Option<String>,
    /// `BD_NETDISK_SCOPE`
    pub scope: Option<String>,
    /// `BD_NETDISK_SESSION_KEY`
    pub session_key: Option<String>,
    /// `BD_NETDISK_SESSION_SECRET`
    pub session_secret: Option<String>,
    /// `BD_NETDISK_ACQUIRED_AT`
    pub acquired_at: Option<String>,
}

/// The view of an optional string, or a default text when absent.
pub open spec fn text_or(o: Option<String>, default: Seq<char>) -> Seq<char> {
    match o {
        Some(s) => s@,
        None => default,
    }
}

/// The acquisition time the environment gives: the variable when it reads
/// as a number, else `now`.
pub open spec fn env_acquired_at(o: Option<String>, now: u64) -> u64 {
    match o {
        Some(s) => match parsed_u64(s@) {
            Some(v) => v,
            None => now,
        },
        None => now,
    }
}

/// The error the environment's token variables give, if any: a missing
/// access token, refresh token or lifetime, or a lifetime that is not a
/// number, checked in this order.
pub open spec fn env_token_error(env: TokenEnv) -> Option<Seq<char>> {
    if env.access_token is None {
        Some("BD_NETDISK_ACCESS_TOKEN environment variable not set"@)
    } else if env.refresh_token is None {
        Some("BD_NETDISK_REFRESH_TOKEN environment variable not set"@)
    } else if env.expires_in is None {
        Some("BD_NETDISK_EXPIRES_IN environment variable not set"@)
    } else if parsed_u64(env.expires_in.unwrap()@) is None {
        Some("BD_NETDISK_EXPIRES_IN must be a valid number"@)
    } else {
        None
    }
}

/// The token the environment's variables describe, taken at `now`: the
/// access and refresh tokens and the lifetime as given, the scope `basic
/// netdisk` and empty session strings when those are not set, and the
/// acquisition time given or else `now`.
pub open spec fn is_env_token(t: AccessToken, env: TokenEnv, now: u64) -> bool {
    &&& env.access_token == Some(t.access_token)
    &&& env.refresh_token == Some(t.refresh_token)
    &&& parsed_u64(env.expires_in.unwrap()@) == Some(t.expires_in)
    &&& t.scope@ == text_or(env.scope, "basic netdisk"@)
    &&& t.session_key@ == text_or(env.session_key, ""@)
    &&& t.session_secret@ == text_or(env.session_secret, ""@)
    &&& t.acquired_at == env_acquired_at(env.acquired_at, now)
}

/// A string, or a default text when absent.
fn take_or(o: Option<String>, default: &str) -> (s: String)
    ensures
        s@ == text_or(o, default@),
{
    match o {
        Some(s) => s,
        None => owned(default),
    }
}

/// The token the environment's variables describe, at `now`, or the
/// authentication error of the first variable that is missing or malformed.
pub fn token_from_env_at(env: TokenEnv, now: u64) -> (r: NetDiskResult<AccessToken>)
    ensures
        env_token_error(env) matches Some(m) ==> (r matches Err(e) && is_auth_error_with(e, m)),
        env_token_error(env) is None ==> (r matches Ok(t) && is_env_token(t, env, now)),
{
    let ghost given = env;
    let TokenEnv {
        access_token,
        refresh_token,
        expires_in,
        scope,
        session_key,
        session_secret,
        acquired_at,
    } = env;
    let access_token = match access_token {
        Some(a) => a,
        None => {
            return Err(
                NetDiskError::auth_error("BD_NETDISK_ACCESS_TOKEN environment variable not set"),
            );
        },
    };
    let refresh_token = match refresh_token {
        Some(a) => a,
        None => {
            return Err(
                NetDiskError::auth_error("BD_NETDISK_REFRESH_TOKEN environment variable not set"),
            );
        },
    };
    let expires_text = match expires_in {
        Some(a) => a,
        None => {
            return Err(
                NetDiskError::auth_error("BD_NETDISK_EXPIRES_IN environment variable not set"),
            );
        },
    };
    let expires_in = match parse_u64(expires_text.as_str()) {
        Some(v) => v,
        None => {
            return Err(NetDiskError::auth_error("BD_NETDISK_EXPIRES_IN must be a valid number"));
        },
    };
    let acquired = match &acquired_at {
        Some(text) => match parse_u64(text.as_str()) {
            Some(v) => v,
            None => now,
        },
        None => now,
    };
    let token = AccessToken {
        access_token,
        expires_in,
        refresh_token,
        scope: take_or(scope, "basic netdisk"),
        session_key: take_or(session_key, ""),
        session_secret: take_or(session_secret, ""),
        acquired_at: acquired,
    };
    assert(is_env_token(token, given, now));
    Ok(token)
}

/// The token the environment's variables describe, taken now (the system
/// clock), or the authentication error of the first variable that is
/// missing or malformed.
pub fn token_from_env(env: TokenEnv) -> (r: NetDiskResult<AccessToken>)
    ensures
        env_token_error(env) matches Some(m) ==> (r matches Err(e) && is_auth_error_with(e, m)),
        env_token_error(env) is None ==> (r matches Ok(t) && exists|now: u64|
            #[trigger] is_env_token(t, env, now)),
{
    let now = unix_now_secs();
    token_from_env_at(env, now)
}

} // verus!
