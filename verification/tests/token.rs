use baidu_netdisk_sdk::auth::{AccessToken, TokenStatus};
use std::time::{SystemTime, UNIX_EPOCH};

fn create_test_token(acquired_at: u64, expires_in: u64) -> AccessToken {
    AccessToken {
        access_token: "test_token".to_string(),
        refresh_token: "test_refresh".to_string(),
        expires_in,
        scope: "basic netdisk".to_string(),
        session_key: String::new(),
        session_secret: String::new(),
        acquired_at,
    }
}

fn now_secs() -> u64 {
    SystemTime::now().duration_since(UNIX_EPOCH).unwrap_or_default().as_secs()
}

#[test]
fn test_token_new() {
    let token = AccessToken::new(
        "access".to_string(),
        "refresh".to_string(),
        3600,
        "basic netdisk".to_string(),
    );

    assert_eq!(token.access_token, "access");
    assert_eq!(token.refresh_token, "refresh");
    assert_eq!(token.expires_in, 3600);
    assert!(token.session_key.is_empty());
}

#[test]
fn test_token_with_all() {
    let now = now_secs();

    let token = AccessToken::with_all(
        "access".to_string(),
        "refresh".to_string(),
        7200,
        "netdisk".to_string(),
        "session_key".to_string(),
        "session_secret".to_string(),
        now,
    );

    assert_eq!(token.scope, "netdisk");
    assert_eq!(token.session_key, "session_key");
    assert_eq!(token.session_secret, "session_secret");
    assert_eq!(token.acquired_at, now);
}

#[test]
fn test_token_is_expired() {
    let now = now_secs();

    let valid_token = create_test_token(now, 3600);
    assert!(!valid_token.is_expired());

    let expired_token = create_test_token(now - 7200, 3600);
    assert!(expired_token.is_expired());
}

#[test]
fn test_token_validate() {
    let now = now_secs();

    let valid_token = create_test_token(now, 3600);
    assert_eq!(valid_token.validate(), TokenStatus::Valid);

    let expiring_soon_token = create_test_token(now, 200);
    assert_eq!(expiring_soon_token.validate(), TokenStatus::ExpiringSoon);

    let expired_token = create_test_token(now - 4000, 3600);
    assert_eq!(expired_token.validate(), TokenStatus::Expired);
}

#[test]
fn test_token_is_valid() {
    let now = now_secs();

    let valid_token = create_test_token(now, 3600);
    assert!(valid_token.is_valid());

    let expired_token = create_test_token(now - 4000, 3600);
    assert!(!expired_token.is_valid());
}

#[test]
fn test_token_remaining_seconds() {
    let now = now_secs();

    let token = create_test_token(now, 1000);
    let remaining = token.remaining_seconds();
    assert!(remaining >= 990 && remaining <= 1000);

    let expired_token = create_test_token(now - 100, 50);
    assert_eq!(expired_token.remaining_seconds(), 0);
}

#[test]
fn test_token_expires_at() {
    let now = now_secs();

    let token = create_test_token(now, 500);
    assert_eq!(token.expires_at(), now + 500);
}

#[test]
fn token_status_at_fixed_times() {
    let token = create_test_token(1000, 1000);
    assert_eq!(token.expires_at(), 2000);
    assert_eq!(token.validate_at(1000), TokenStatus::Valid);
    assert_eq!(token.validate_at(1699), TokenStatus::Valid);
    assert_eq!(token.validate_at(1700), TokenStatus::ExpiringSoon);
    assert_eq!(token.validate_at(1999), TokenStatus::ExpiringSoon);
    assert_eq!(token.validate_at(2000), TokenStatus::Expired);
    assert_eq!(token.validate_at(5000), TokenStatus::Expired);
    assert_eq!(token.remaining_seconds_at(1500), 500);
    assert_eq!(token.remaining_seconds_at(2500), 0);
}

#[test]
fn token_expired_within_a_minute_of_expiry() {
    let token = create_test_token(1000, 1000);
    assert!(!token.is_expired_at(1939));
    assert!(token.is_expired_at(1940));
    assert!(token.is_expired_at(3000));
}

#[test]
fn token_valid_only_beyond_five_minutes() {
    let token = create_test_token(0, 1000);
    assert!(token.is_valid_at(699));
    assert!(!token.is_valid_at(700));
    assert!(!token.is_valid_at(1000));
}

#[test]
fn token_status_never_improves_over_time() {
    let token = create_test_token(100, 600);
    let rank = |s: TokenStatus| match s {
        TokenStatus::Valid => 0,
        TokenStatus::ExpiringSoon => 1,
        TokenStatus::Expired => 2,
    };
    let mut last = 0;
    for now in 0..1000u64 {
        let r = rank(token.validate_at(now));
        assert!(r >= last);
        last = r;
    }
}

#[test]
fn token_clone_keeps_every_field() {
    let token = AccessToken::with_all(
        "a".to_string(),
        "r".to_string(),
        10,
        "s".to_string(),
        "k".to_string(),
        "x".to_string(),
        5,
    );
    let copy = token.clone();
    assert_eq!(copy.access_token, "a");
    assert_eq!(copy.refresh_token, "r");
    assert_eq!(copy.expires_in, 10);
    assert_eq!(copy.scope, "s");
    assert_eq!(copy.session_key, "k");
    assert_eq!(copy.session_secret, "x");
    assert_eq!(copy.acquired_at, 5);
}

#[test]
fn expiry_rule_holds_for_extreme_times() {
    let short = create_test_token(0, 10);
    assert!(short.is_expired_at(0));
    let far = create_test_token(u64::MAX, u64::MAX);
    assert!(!far.is_expired_at(u64::MAX));
    let edge = create_test_token(u64::MAX - 100, 100);
    assert!(edge.is_expired_at(u64::MAX - 60));
    assert!(!edge.is_expired_at(u64::MAX - 61));
}

#[test]
fn token_new_at_keeps_the_given_time() {
    let token = AccessToken::new_at(
        "access".to_string(),
        "refresh".to_string(),
        3600,
        "basic netdisk".to_string(),
        1_700_000_000,
    );
    assert_eq!(token.access_token, "access");
    assert_eq!(token.refresh_token, "refresh");
    assert_eq!(token.expires_in, 3600);
    assert_eq!(token.scope, "basic netdisk");
    assert!(token.session_key.is_empty());
    assert!(token.session_secret.is_empty());
    assert_eq!(token.acquired_at, 1_700_000_000);
}

#[test]
fn token_new_reads_the_clock() {
    let before = SystemTime::now().duration_since(UNIX_EPOCH).unwrap().as_secs();
    let token = AccessToken::new(
        "access".to_string(),
        "refresh".to_string(),
        3600,
        "basic netdisk".to_string(),
    );
    let after = SystemTime::now().duration_since(UNIX_EPOCH).unwrap().as_secs();
    assert!(before <= token.acquired_at && token.acquired_at <= after);
    assert_eq!(token.scope, "basic netdisk");
    assert!(token.session_secret.is_empty());
}
