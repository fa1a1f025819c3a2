use baidu_netdisk_sdk::auth::{AccessToken, ApiErrorResponse, AuthErrorResponse};
use baidu_netdisk_sdk::client::{
    token_from_env, token_from_env_at, ClientBuilder, ClientConfig, StaticTokenGetter, TokenEnv,
};
use baidu_netdisk_sdk::errors::errno::{
    get_error_description, get_error_message, is_auth_error, is_not_found_error,
    is_permission_error, is_quota_error, is_success, is_token_expired,
};
use baidu_netdisk_sdk::errors::NetDiskError;
use baidu_netdisk_sdk::http::{
    error_response, failure_is_retryable, next_action, parse_request_url, request_target,
    request_url, status_is_success, url_with_params, AttemptOutcome, HttpClientConfig, RequestTarget, RetryAction, API_BASE,
};
use baidu_netdisk_sdk::text::parse_u64;
use std::time::Duration;

#[test]
fn error_table_lookups() {
    assert_eq!(get_error_description(0), Some("成功"));
    assert_eq!(get_error_description(-6), Some("文件不存在"));
    assert_eq!(get_error_description(31360), Some("链接过期。dlink有效期为8小时"));
    assert_eq!(get_error_description(424242), None);
}

#[test]
fn error_message_format() {
    assert_eq!(get_error_message(-7, "x"), "目录不存在 (errno: -7)");
    assert_eq!(get_error_message(777777, "custom"), "custom (errno: 777777)");
    assert_eq!(get_error_message(-2147483648, "m"), "m (errno: -2147483648)");
}

#[test]
fn errno_classes() {
    assert!(is_success(0));
    assert!(!is_success(1));
    for c in 100..=111 {
        assert!(is_auth_error(c));
    }
    assert!(!is_auth_error(112));
    assert!(is_auth_error(-22) && is_auth_error(-25) && !is_auth_error(-26));
    assert!(is_not_found_error(-6) && is_not_found_error(7) && !is_not_found_error(8));
    assert!(is_permission_error(-30) && is_permission_error(304) && !is_permission_error(5));
    assert!(is_quota_error(-11) && is_quota_error(15) && !is_quota_error(16));
    assert!(is_token_expired(-23) && is_token_expired(106) && !is_token_expired(107));
    for c in -100..32000 {
        if is_token_expired(c) {
            assert!(is_auth_error(c));
        }
    }
}

#[test]
fn error_kinds_of_error_values() {
    let e = NetDiskError::api_error(106, "ignored");
    assert!(e.is_auth_error() && e.is_token_expired());
    assert!(!e.is_not_found_error() && !e.is_permission_error() && !e.is_quota_error());
    assert!(NetDiskError::TokenExpired.is_token_expired());
    assert!(NetDiskError::auth_error("x").is_auth_error());
    assert!(!NetDiskError::auth_error("x").is_token_expired());
    assert!(NetDiskError::file_not_found("/a").is_not_found_error());
    assert!(NetDiskError::directory_not_found("/a").is_not_found_error());
    assert!(!NetDiskError::file_exists("/a").is_not_found_error());
    assert!(NetDiskError::api_error(-10, "").is_quota_error());
    assert!(NetDiskError::api_error(4, "").is_permission_error());
    assert!(!NetDiskError::invalid_parameter("p").is_auth_error());
    assert!(!NetDiskError::unknown("u".to_string()).is_quota_error());
}

#[test]
fn api_error_prefers_the_table() {
    match NetDiskError::api_error(-9, "server said") {
        NetDiskError::ApiError { errno, errmsg } => {
            assert_eq!(errno, -9);
            assert_eq!(errmsg, "不允许的操作");
        }
        _ => panic!("expected an API error"),
    }
    match NetDiskError::api_error_raw(-9, "server said") {
        NetDiskError::ApiError { errmsg, .. } => assert_eq!(errmsg, "server said"),
        _ => panic!("expected an API error"),
    }
}

#[test]
fn parse_u64_follows_str_parse() {
    let cases = [
        "", "0", "+0", "+", "-0", "-", "42", "+42", "007", " 1", "1 ", "1a", "18446744073709551615",
        "18446744073709551616", "99999999999999999999999", "+18446744073709551615", "١٢",
    ];
    for c in cases {
        assert_eq!(parse_u64(c), c.parse::<u64>().ok(), "input {:?}", c);
    }
}

#[test]
fn http_config_defaults() {
    let c = HttpClientConfig::default();
    assert_eq!(c.timeout, Duration::from_secs(30));
    assert_eq!(c.connect_timeout, Duration::from_secs(10));
    assert_eq!(c.max_retries, 3);
    assert_eq!(c.retry_delay_ms, 1000);
    assert_eq!(c.user_agent, "pan.baidu.com");
    assert!(c.follow_redirects);
    assert_eq!(c.max_redirects, 10);
    let d = c.clone();
    assert_eq!(d.timeout, c.timeout);
    assert_eq!(d.user_agent, c.user_agent);
}

#[test]
fn absolute_urls_ignore_params() {
    let params = vec![("a".to_string(), "1".to_string())];
    match request_target("https://d.pcs.baidu.com/file", Some(&params)) {
        RequestTarget::Absolute { url } => assert_eq!(url, "https://d.pcs.baidu.com/file"),
        _ => panic!("expected an absolute target"),
    }
    match request_target("/rest/2.0/xpan/nas", Some(&params)) {
        RequestTarget::Relative { path, query } => {
            assert_eq!(path, "/rest/2.0/xpan/nas");
            assert_eq!(query, params);
        }
        _ => panic!("expected a relative target"),
    }
    match request_target("/api/quota", None) {
        RequestTarget::Relative { query, .. } => assert!(query.is_empty()),
        _ => panic!("expected a relative target"),
    }
}

#[test]
fn retry_decisions() {
    let c = HttpClientConfig::default();
    let server = AttemptOutcome::Response { status: 503 };
    let ok = AttemptOutcome::Response { status: 200 };
    let client_error = AttemptOutcome::Response { status: 404 };
    let timeout = AttemptOutcome::Failure { retryable: true };
    let fatal = AttemptOutcome::Failure { retryable: false };
    assert_eq!(next_action(&c, 1, &server), RetryAction::RetryAfter { delay_ms: 1000 });
    assert_eq!(next_action(&c, 3, &server), RetryAction::RetryAfter { delay_ms: 1000 });
    assert_eq!(next_action(&c, 4, &server), RetryAction::Interpret);
    assert_eq!(next_action(&c, 1, &ok), RetryAction::Interpret);
    assert_eq!(next_action(&c, 1, &client_error), RetryAction::Interpret);
    assert_eq!(next_action(&c, 1, &timeout), RetryAction::RetryAfter { delay_ms: 1000 });
    assert_eq!(next_action(&c, 3, &timeout), RetryAction::RetryAfter { delay_ms: 1000 });
    assert_eq!(next_action(&c, 4, &timeout), RetryAction::Fail);
    assert_eq!(next_action(&c, 1, &fatal), RetryAction::Fail);
}

#[test]
fn retries_stop_at_the_configured_count() {
    for max in 0..6usize {
        let mut c = HttpClientConfig::default();
        c.max_retries = max;
        let mut attempts = 0usize;
        loop {
            attempts += 1;
            match next_action(&c, attempts, &AttemptOutcome::Response { status: 500 }) {
                RetryAction::RetryAfter { .. } => continue,
                _ => break,
            }
        }
        assert_eq!(attempts, max + 1);
    }
}

#[test]
fn error_response_precedence() {
    let api = ApiErrorResponse {
        errno: Some(1),
        errmsg: Some("m1".to_string()),
        error_code: Some(-6),
        error_msg: None,
    };
    let auth = AuthErrorResponse {
        error: "invalid_grant".to_string(),
        error_description: "bad grant".to_string(),
    };
    match error_response(400, "https://x", Some(&api), Some(&auth)) {
        NetDiskError::ApiError { errno, errmsg } => {
            assert_eq!(errno, -6);
            assert_eq!(errmsg, "文件不存在");
        }
        _ => panic!("expected an API error"),
    }
    match error_response(400, "https://x", None, Some(&auth)) {
        NetDiskError::AuthError { description } => assert_eq!(description, "bad grant"),
        _ => panic!("expected an authentication error"),
    }
    match error_response(502, "https://x", None, None) {
        NetDiskError::HttpError { status_code, url, source } => {
            assert_eq!(status_code, 502);
            assert_eq!(url, "https://x");
            assert!(source.is_none());
        }
        _ => panic!("expected an HTTP error"),
    }
    let empty = ApiErrorResponse::default();
    match error_response(500, "u", Some(&empty), None) {
        NetDiskError::ApiError { errno, errmsg } => {
            assert_eq!(errno, -1);
            assert_eq!(errmsg, "系统错误");
        }
        _ => panic!("expected an API error"),
    }
}

fn config() -> ClientConfig {
    ClientConfig::with_credentials(String::new(), String::new(), String::new(), String::new())
}

#[test]
fn test_client_builder() {
    let built = ClientBuilder::from_config(config())
        .app_key("test_app_key")
        .app_secret("test_app_secret")
        .timeout(Duration::from_secs(30))
        .max_retries(3)
        .auto_refresh(true)
        .build_config();
    assert!(built.is_ok());
}

#[test]
fn test_client_builder_missing_app_key() {
    let built = ClientBuilder::from_config(config())
        .app_key("")
        .app_secret("test_app_secret")
        .build_config();
    match built {
        Err(NetDiskError::InvalidParameter { message }) => assert_eq!(message, "app_key is required"),
        _ => panic!("expected an invalid parameter"),
    }
}

#[test]
fn test_client_builder_missing_app_secret() {
    let built = ClientBuilder::from_config(config())
        .app_key("test_app_key")
        .app_secret("")
        .build_config();
    match built {
        Err(NetDiskError::InvalidParameter { message }) => {
            assert_eq!(message, "app_secret is required")
        }
        _ => panic!("expected an invalid parameter"),
    }
}

#[test]
fn test_client_builder_with_all_options() {
    let c = ClientBuilder::from_config(config())
        .app_id("test_app_id")
        .app_key("test_app_key")
        .app_secret("test_app_secret")
        .app_name("Test App")
        .scope("basic,netdisk")
        .timeout(Duration::from_secs(60))
        .connect_timeout(Duration::from_secs(10))
        .max_retries(5)
        .user_agent("TestAgent/1.0")
        .auto_refresh(true)
        .refresh_ahead_seconds(86400)
        .build_config()
        .unwrap();
    assert_eq!(c.app_id, "test_app_id");
    assert_eq!(c.app_key, "test_app_key");
    assert_eq!(c.app_secret, "test_app_secret");
    assert_eq!(c.app_name, "Test App");
    assert_eq!(c.scope, "basic,netdisk");
    assert_eq!(c.http_config.timeout, Duration::from_secs(60));
    assert_eq!(c.http_config.connect_timeout, Duration::from_secs(10));
    assert_eq!(c.http_config.max_retries, 5);
    assert_eq!(c.http_config.user_agent, "TestAgent/1.0");
    assert!(c.token_config.auto_refresh);
    assert_eq!(c.token_config.refresh_ahead_seconds, 86400);
}

#[test]
fn client_config_defaults() {
    let c = ClientConfig::with_credentials("i".into(), "k".into(), "s".into(), "n".into());
    assert_eq!(c.scope, "basic,netdisk");
    assert_eq!(c.app_key, "k");
    assert_eq!(c.http_config.max_retries, 3);
    assert!(c.token_config.auto_refresh);
    assert_eq!(c.token_config.refresh_ahead_seconds, 86400);
    assert_eq!(c.token_config.max_refresh_retries, 3);
}

#[test]
fn static_token_getter_hands_out_its_token() {
    let token = AccessToken {
        access_token: "test_access_token".to_string(),
        expires_in: 3600,
        refresh_token: "test_refresh_token".to_string(),
        scope: "basic netdisk".to_string(),
        session_key: "".to_string(),
        session_secret: "".to_string(),
        acquired_at: 0,
    };
    let getter = StaticTokenGetter::new(token.clone());
    let t = getter.token();
    assert_eq!(t.access_token, token.access_token);
    assert_eq!(t.refresh_token, token.refresh_token);
    assert_eq!(t.expires_in, token.expires_in);
}

fn env(access: Option<&str>, refresh: Option<&str>, expires: Option<&str>) -> TokenEnv {
    TokenEnv {
        access_token: access.map(String::from),
        refresh_token: refresh.map(String::from),
        expires_in: expires.map(String::from),
        scope: None,
        session_key: None,
        session_secret: None,
        acquired_at: None,
    }
}

fn auth_description(r: Result<AccessToken, NetDiskError>) -> String {
    match r {
        Err(NetDiskError::AuthError { description }) => description,
        other => panic!("expected an authentication error, got {:?}", other),
    }
}

#[test]
fn env_token_errors_in_order() {
    assert_eq!(
        auth_description(token_from_env_at(env(None, None, None), 7)),
        "BD_NETDISK_ACCESS_TOKEN environment variable not set"
    );
    assert_eq!(
        auth_description(token_from_env_at(env(Some("a"), None, Some("1")), 7)),
        "BD_NETDISK_REFRESH_TOKEN environment variable not set"
    );
    assert_eq!(
        auth_description(token_from_env_at(env(Some("a"), Some("r"), None), 7)),
        "BD_NETDISK_EXPIRES_IN environment variable not set"
    );
    assert_eq!(
        auth_description(token_from_env_at(env(Some("a"), Some("r"), Some("12h")), 7)),
        "BD_NETDISK_EXPIRES_IN must be a valid number"
    );
}

#[test]
fn env_token_defaults_and_values() {
    let t = token_from_env_at(env(Some("a"), Some("r"), Some("3600")), 7).unwrap();
    assert_eq!(t.access_token, "a");
    assert_eq!(t.refresh_token, "r");
    assert_eq!(t.expires_in, 3600);
    assert_eq!(t.scope, "basic netdisk");
    assert_eq!(t.session_key, "");
    assert_eq!(t.session_secret, "");
    assert_eq!(t.acquired_at, 7);

    let mut e = env(Some("a"), Some("r"), Some("+10"));
    e.scope = Some("netdisk".to_string());
    e.session_key = Some("k".to_string());
    e.session_secret = Some("s".to_string());
    e.acquired_at = Some("123".to_string());
    let t = token_from_env_at(e, 7).unwrap();
    assert_eq!(t.expires_in, 10);
    assert_eq!(t.scope, "netdisk");
    assert_eq!(t.session_key, "k");
    assert_eq!(t.session_secret, "s");
    assert_eq!(t.acquired_at, 123);

    let mut e = env(Some("a"), Some("r"), Some("1"));
    e.acquired_at = Some("yesterday".to_string());
    assert_eq!(token_from_env_at(e, 99).unwrap().acquired_at, 99);

    let t = token_from_env(env(Some("a"), Some("r"), Some("5"))).unwrap();
    assert!(t.acquired_at > 1_600_000_000);
}

#[test]
fn error_messages() {
    assert_eq!(NetDiskError::http_error(404, "https://x").message(), "HTTP request error: 404 - https://x");
    assert_eq!(NetDiskError::api_error(-6, "m").message(), "API error: -6 - 文件不存在");
    assert_eq!(NetDiskError::auth_error("bad").message(), "Authentication error: bad");
    assert_eq!(NetDiskError::invalid_parameter("p").message(), "Invalid parameter: p");
    assert_eq!(NetDiskError::Timeout.message(), "Request timed out");
    assert_eq!(NetDiskError::TokenExpired.message(), "Token expired");
    assert_eq!(NetDiskError::unknown("u".to_string()).message(), "Unknown error: u");
    let json = serde_json::from_str::<u32>("x").unwrap_err();
    let text = json.to_string();
    assert_eq!(NetDiskError::JsonError(json).message(), format!("JSON parsing error: {}", text));
    let io = std::io::Error::new(std::io::ErrorKind::Other, "disk");
    assert_eq!(NetDiskError::IoError(io).message(), "IO error: disk");
}

#[test]
fn classified_codes_have_descriptions_and_classes_are_disjoint() {
    for c in -200..32000 {
        let classes = [is_auth_error(c), is_not_found_error(c), is_permission_error(c), is_quota_error(c)];
        assert!(classes.iter().filter(|b| **b).count() <= 1, "code {}", c);
        if is_success(c) {
            assert!(classes.iter().all(|b| !*b));
        }
        if is_success(c) || classes.iter().any(|b| *b) {
            assert!(get_error_description(c).is_some(), "code {}", c);
        }
    }
}

#[test]
fn request_urls_are_resolved_and_encoded() {
    let params = vec![
        ("method".to_string(), "list".to_string()),
        ("dir".to_string(), "/my docs".to_string()),
    ];
    assert_eq!(
        request_url(API_BASE, "/rest/2.0/xpan/file", Some(&params)).unwrap(),
        "https://pan.baidu.com/rest/2.0/xpan/file?method=list&dir=%2Fmy+docs"
    );
    assert_eq!(request_url(API_BASE, "/api/quota", None).unwrap(), "https://pan.baidu.com/api/quota");
    assert_eq!(
        request_url(API_BASE, "/api/quota", Some(&Vec::new())).unwrap(),
        "https://pan.baidu.com/api/quota"
    );
    assert_eq!(
        request_url(API_BASE, "https://d.pcs.baidu.com/x?a=1", Some(&params)).unwrap(),
        "https://d.pcs.baidu.com/x?a=1"
    );
    assert_eq!(parse_request_url("https://Example.com").unwrap(), "https://example.com/");
    assert!(matches!(parse_request_url("not a url"), Err(NetDiskError::UrlParseError(_))));
    assert!(matches!(request_url(API_BASE, "http://[bad", None), Err(NetDiskError::UrlParseError(_))));
    assert_eq!(
        url_with_params("https://h/p?x=1", &params).unwrap(),
        "https://h/p?x=1&method=list&dir=%2Fmy+docs"
    );
}

#[test]
fn success_status_is_the_2xx_class() {
    assert!(status_is_success(200));
    assert!(status_is_success(206));
    assert!(status_is_success(299));
    assert!(!status_is_success(199));
    assert!(!status_is_success(300));
    assert!(!status_is_success(404));
    assert!(!status_is_success(500));
}

#[test]
fn retryable_failures_are_timeouts_connects_and_bodies() {
    assert!(failure_is_retryable(true, false, false));
    assert!(failure_is_retryable(false, true, false));
    assert!(failure_is_retryable(false, false, true));
    assert!(!failure_is_retryable(false, false, false));
}
