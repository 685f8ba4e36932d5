//! Session-token behaviour: minting, validation, rotation, route guarding.
use tda_server::jwt::AuthError;
use tda_server::jwt::auth;
use tda_server::jwt::auth_error_status;
use tda_server::jwt::create_access_token;
use tda_server::jwt::create_refresh_token;
use tda_server::jwt::exchange_refresh_token;
use tda_server::jwt::get_token;
use tda_server::jwt::validate_token;

const SECRET: &str = "test-access-secret";

#[test]
fn test_create_and_validate_access_token() {
    let token = create_access_token(SECRET, 1000);
    assert!(!token.is_empty());
    let claims = validate_token(&token, SECRET, 2000).expect("fresh token must validate");
    assert_eq!(claims.sub, "access_token");
    assert_eq!(claims.iat, 1000);
    assert_eq!(claims.exp, 1000 + 3600);
}

#[test]
fn test_validate_rejects_expired_token() {
    let token = create_access_token(SECRET, 1000);
    let err = validate_token(&token, SECRET, 1000 + 3600).unwrap_err();
    assert_eq!(err, AuthError::Invalid);
}

#[test]
fn test_validate_rejects_other_secret() {
    let token = create_access_token("secret-a", 1000);
    let err = validate_token(&token, "secret-b", 2000).unwrap_err();
    assert_eq!(err, AuthError::Invalid);
}

#[test]
fn test_validate_rejects_truncated_token() {
    let token = create_access_token(SECRET, 1000);
    let truncated = &token[..token.len() - 10];
    let err = validate_token(truncated, SECRET, 2000).unwrap_err();
    assert_eq!(err, AuthError::Invalid);
}

#[test]
fn test_validate_rejects_garbage() {
    assert_eq!(validate_token("not.a.jwt", SECRET, 0).unwrap_err(), AuthError::Invalid);
    assert_eq!(validate_token("", SECRET, 0).unwrap_err(), AuthError::Invalid);
}

#[test]
fn test_validation_failures_share_one_status() {
    // Wrong secret, expired claim and truncated structure are one observable
    // 401 to a client.
    assert_eq!(auth_error_status(AuthError::Invalid), 401);
    assert_eq!(auth_error_status(AuthError::WrongSubject), 401);
}

#[test]
fn test_refresh_rotation_extends_expiry() {
    let old = create_refresh_token(SECRET, 1000);
    let old_claims = validate_token(&old, SECRET, 2000).unwrap();
    assert_eq!(old_claims.sub, "refresh_token");
    let rotated = exchange_refresh_token(&old, SECRET, 2000).expect("valid refresh must rotate");
    let new_claims = validate_token(&rotated, SECRET, 2500).unwrap();
    assert_eq!(new_claims.sub, "refresh_token");
    assert_eq!(new_claims.iat, 2000);
    assert!(new_claims.exp > old_claims.exp);
}

#[test]
fn test_rotation_rejects_access_token() {
    let access = create_access_token(SECRET, 1000);
    let err = exchange_refresh_token(&access, SECRET, 2000).unwrap_err();
    assert_eq!(err, AuthError::WrongSubject);
}

#[test]
fn test_rotation_rejects_expired_refresh_token() {
    let old = create_refresh_token(SECRET, 1000);
    let err = exchange_refresh_token(&old, SECRET, 1000 + 604800 + 1).unwrap_err();
    assert_eq!(err, AuthError::Invalid);
}

#[test]
fn test_tokens_at_instants_before_the_epoch() {
    // Instants are signed; a claim minted before the epoch still round-trips.
    let token = create_access_token(SECRET, -7200);
    let claims = validate_token(&token, SECRET, -7000).unwrap();
    assert_eq!(claims.iat, -7200);
    assert_eq!(claims.exp, -3600);
    assert_eq!(validate_token(&token, SECRET, 0).unwrap_err(), AuthError::Invalid);
}

#[test]
fn test_minting_at_latest_supported_instant() {
    let latest = tda_server::jwt::MAX_TOKEN_INSTANT;
    let token = create_access_token(SECRET, latest);
    let claims = validate_token(&token, SECRET, latest).unwrap();
    assert_eq!(claims.exp, latest + 3600);
    let refresh = create_refresh_token(SECRET, latest);
    let claims = validate_token(&refresh, SECRET, latest).unwrap();
    assert_eq!(claims.exp, i64::MAX);
}

#[test]
fn test_get_token_prefers_cookie() {
    let cookie = String::from("cookie-token");
    let header = String::from("Bearer header-token");
    assert_eq!(get_token(Some(&cookie), Some(&header)).unwrap(), "cookie-token");
}

#[test]
fn test_get_token_reads_bearer_header() {
    let header = String::from("Bearer header-token");
    assert_eq!(get_token(None, Some(&header)).unwrap(), "header-token");
}

#[test]
fn test_get_token_rejects_other_schemes() {
    let header = String::from("Basic Zm9vOmJhcg==");
    assert!(get_token(None, Some(&header)).is_none());
    let short = String::from("Bearer");
    assert!(get_token(None, Some(&short)).is_none());
    assert!(get_token(None, None).is_none());
}

#[test]
fn test_gate_accepts_valid_cookie_token() {
    let token = create_access_token(SECRET, 1000);
    let claims = auth(Some(&token), None, SECRET, 2000).expect("gate must pass a valid token");
    assert_eq!(claims.sub, "access_token");
}

#[test]
fn test_gate_rejects_missing_and_invalid_tokens() {
    assert_eq!(auth(None, None, SECRET, 2000).unwrap_err(), 401);
    let expired = create_access_token(SECRET, 1000);
    assert_eq!(auth(Some(&expired), None, SECRET, 1000 + 3600).unwrap_err(), 401);
    let foreign = create_access_token("another-secret", 1000);
    assert_eq!(auth(Some(&foreign), None, SECRET, 2000).unwrap_err(), 401);
}
