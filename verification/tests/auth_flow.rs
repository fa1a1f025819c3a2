use baidu_netdisk_sdk::auth::authorization::access_token_outcome;
use baidu_netdisk_sdk::auth::token_provider::{settle_try_refresh, settle_valid_token, TokenPlan};
use baidu_netdisk_sdk::auth::{
    AccessToken, AccessTokenResponse, Authorization, DeviceCode, DeviceCodeResponse, TokenProvider,
    TokenProviderConfig, TokenStatus,
};
use baidu_netdisk_sdk::errors::NetDiskError;

fn token(name: &str, acquired_at: u64, expires_in: u64) -> AccessToken {
    AccessToken::with_all(
        name.to_string(),
        format!("{}-refresh", name),
        expires_in,
        "basic netdisk".to_string(),
        String::new(),
        String::new(),
        acquired_at,
    )
}

fn auth_text(e: NetDiskError) -> String {
    match e {
        NetDiskError::AuthError { description } => description,
        other => panic!("expected an authentication error, got {:?}", other),
    }
}

#[test]
fn provider_read_after_set_and_clear() {
    let mut p = TokenProvider::new("key", "secret", TokenProviderConfig::default());
    assert_eq!(auth_text(p.get_access_token().unwrap_err()), "No access token available");
    assert!(p.get_access_token_full().unwrap().is_none());
    assert_eq!(p.validate_token_at(0).unwrap(), TokenStatus::Expired);
    p.set_access_token(token("t1", 1000, 1000)).unwrap();
    assert_eq!(p.get_access_token().unwrap(), "t1");
    assert_eq!(p.validate_token_at(1100).unwrap(), TokenStatus::Valid);
    assert_eq!(p.validate_token_at(1800).unwrap(), TokenStatus::ExpiringSoon);
    p.set_access_token(token("t2", 0, 10)).unwrap();
    assert_eq!(p.get_access_token().unwrap(), "t2");
    p.clear_token().unwrap();
    assert!(p.get_access_token().is_err());
    assert!(p.needs_refresh_at(5).unwrap());
}

#[test]
fn provider_needs_refresh_within_configured_window() {
    let config = TokenProviderConfig { auto_refresh: true, refresh_ahead_seconds: 100, max_refresh_retries: 3 };
    let mut p = TokenProvider::new("k", "s", config);
    p.set_access_token(token("t", 0, 1000)).unwrap();
    assert!(!p.needs_refresh_at(899).unwrap());
    assert!(p.needs_refresh_at(900).unwrap());
    assert!(p.needs_refresh_at(5000).unwrap());
    assert_eq!(p.config().refresh_ahead_seconds, 100);
}

#[test]
fn provider_plans() {
    let on = TokenProviderConfig::default();
    let off = TokenProviderConfig { auto_refresh: false, ..TokenProviderConfig::default() };
    let mut p = TokenProvider::new("k", "s", on);
    assert_eq!(
        auth_text(p.plan_valid_token_at(0).err().unwrap()),
        "No access token available"
    );
    p.set_access_token(token("t", 0, 1000)).unwrap();
    // 900 s left is within the default 24 h refresh window
    assert!(matches!(p.plan_valid_token_at(100).unwrap(), TokenPlan::RefreshOrUse(_)));
    assert!(matches!(p.plan_valid_token_at(1000).unwrap(), TokenPlan::MustRefresh));
    let narrow = TokenProviderConfig { refresh_ahead_seconds: 100, ..TokenProviderConfig::default() };
    let mut n = TokenProvider::new("k", "s", narrow);
    n.set_access_token(token("t", 0, 1000)).unwrap();
    assert!(matches!(n.plan_valid_token_at(100).unwrap(), TokenPlan::Use(_)));
    assert!(matches!(n.plan_valid_token_at(899).unwrap(), TokenPlan::Use(_)));
    assert!(matches!(n.plan_valid_token_at(900).unwrap(), TokenPlan::RefreshOrUse(_)));
    assert!(matches!(n.plan_valid_token_at(2000).unwrap(), TokenPlan::MustRefresh));
    let mut q = TokenProvider::new("k", "s", off);
    q.set_access_token(token("t", 0, 1000)).unwrap();
    assert!(matches!(q.plan_valid_token_at(800).unwrap(), TokenPlan::Use(_)));
    assert!(matches!(q.plan_valid_token_at(999).unwrap(), TokenPlan::Use(_)));
    assert_eq!(
        auth_text(q.plan_valid_token_at(1000).err().unwrap()),
        "Token is expired and auto-refresh is disabled, please re-authenticate"
    );
}

#[test]
fn settling_plans() {
    let old = token("old", 0, 1000);
    let new = token("new", 0, 1000);
    let r = settle_valid_token(TokenPlan::RefreshOrUse(old.clone()), Err(NetDiskError::Timeout));
    assert_eq!(r.unwrap().access_token, "old");
    let r = settle_valid_token(TokenPlan::RefreshOrUse(old.clone()), Ok(new.clone()));
    assert_eq!(r.unwrap().access_token, "new");
    let r = settle_valid_token(TokenPlan::MustRefresh, Err(NetDiskError::Timeout));
    assert!(matches!(r, Err(NetDiskError::Timeout)));
    let r = settle_valid_token(TokenPlan::Use(old.clone()), Ok(new.clone()));
    assert_eq!(r.unwrap().access_token, "old");
    assert!(settle_try_refresh(Err(NetDiskError::Cancelled)).unwrap().is_none());
    assert_eq!(settle_try_refresh(Ok(new)).unwrap().unwrap().access_token, "new");
}

#[test]
fn refresh_url_is_form_encoded() {
    let mut p = TokenProvider::new("my key", "s&cret", TokenProviderConfig::default());
    assert_eq!(auth_text(p.refresh_request_url().unwrap_err()), "No access token to refresh");
    p.set_access_token(token("t", 0, 1000)).unwrap();
    assert_eq!(
        p.refresh_request_url().unwrap(),
        "https://openapi.baidu.com/oauth/2.0/token?grant_type=refresh_token&refresh_token=t-refresh&client_id=my+key&client_secret=s%26cret"
    );
}

#[test]
fn refresh_completion_stores_the_new_token() {
    let mut p = TokenProvider::new("k", "s", TokenProviderConfig::default());
    let response = AccessTokenResponse {
        access_token: "fresh".to_string(),
        expires_in: 2592000,
        refresh_token: "r2".to_string(),
        scope: "basic".to_string(),
        session_key: String::new(),
        session_secret: String::new(),
    };
    let t = p.complete_refresh_at(response, 50);
    assert_eq!(t.acquired_at, 50);
    assert_eq!(p.get_access_token().unwrap(), "fresh");
    assert_eq!(
        auth_text(TokenProvider::refresh_failed_error("boom")),
        "Token refresh failed, please re-authenticate: boom"
    );
}

#[test]
fn authorization_urls() {
    let a = Authorization::new("ak", "sk", "basic,netdisk");
    assert_eq!(
        a.device_code_url().unwrap(),
        "https://openapi.baidu.com/oauth/2.0/device/code?response_type=device_code&client_id=ak&scope=basic%2Cnetdisk"
    );
    let d = DeviceCode::from_response_at(
        DeviceCodeResponse {
            device_code: "dc/1".to_string(),
            user_code: "uc".to_string(),
            verification_url: "v".to_string(),
            qrcode_url: "q".to_string(),
            expires_in: 300,
            interval: 5,
        },
        1000,
    );
    assert_eq!(d.expires_at, 1300);
    assert_eq!(
        a.access_token_url(&d).unwrap(),
        "https://openapi.baidu.com/oauth/2.0/token?grant_type=device_token&code=dc%2F1&client_id=ak&client_secret=sk"
    );
}

fn response() -> AccessTokenResponse {
    AccessTokenResponse {
        access_token: "a".to_string(),
        expires_in: 10,
        refresh_token: "r".to_string(),
        scope: "s".to_string(),
        session_key: String::new(),
        session_secret: String::new(),
    }
}

#[test]
fn polling_outcomes() {
    let t = access_token_outcome(Ok(response()), 9).unwrap().unwrap();
    assert_eq!(t.acquired_at, 9);
    let pending = NetDiskError::auth_error("authorization_pending");
    assert!(access_token_outcome(Err(pending), 0).unwrap().is_none());
    let slow = NetDiskError::auth_error("slow_down please");
    assert!(access_token_outcome(Err(slow), 0).unwrap().is_none());
    let invalid = NetDiskError::auth_error("invalid_grant: expired");
    assert_eq!(
        auth_text(access_token_outcome(Err(invalid), 0).unwrap_err()),
        "invalid_grant: expired"
    );
    assert!(matches!(
        access_token_outcome(Err(NetDiskError::Timeout), 0),
        Err(NetDiskError::Timeout)
    ));
    let other = NetDiskError::auth_error("something else");
    assert_eq!(auth_text(access_token_outcome(Err(other), 0).unwrap_err()), "something else");
}
