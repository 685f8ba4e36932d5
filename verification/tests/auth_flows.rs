//! End-to-end orchestration flows against the real KDF and token library.
use tda_server::Env;
use tda_server::cloudflare::SiteVerifyResponse;
use tda_server::cloudflare::SiteVerifyResponseError;
use tda_server::cloudflare::SiteVerifyResponseSuccess;
use tda_server::cloudflare::verify_cf_response;
use tda_server::cookie::CookieContext;
use tda_server::cookie::DeploymentMode;
use tda_server::handlers::accounts::require_access_token;
use tda_server::handlers::callback::tda;
use tda_server::handlers::get_authorization_url::get_authorization_url;
use tda_server::handlers::refresh_token::AuthRefreshTokenBody;
use tda_server::handlers::refresh_token::auth_tradetracker_refresh_token;
use tda_server::handlers::sign_in::AuthSignInWithEmailPasswordRequest;
use tda_server::handlers::sign_in::auth_sign_in_with_email_password;
use tda_server::handlers::sign_up::AuthSignUpWithEmailPasswordRequest;
use tda_server::handlers::sign_up::auth_sign_up_with_email_password;
use tda_server::handlers::sign_up::sign_up_completion_status;
use tda_server::handlers::tda_refresh::auth_tda_refresh_token;
use tda_server::handlers::tda_refresh::tda_refresh_request_token;
use tda_server::jwt::auth;
use tda_server::jwt::create_refresh_token;
use tda_server::jwt::validate_token;
use tda_server::password::HashError;
use tda_server::password::hash_password;
use tda_server::password::verify_password;
use tda_server::tda_client::TDAmeritradeClient;
use tda_server::tda_client::TokenResponse;
use tda_server::transport::TransportError;

const NOW: i64 = 1_700_000_000;

fn env() -> Env {
    Env::new(String::from("access-secret"), String::from("refresh-secret"))
}

fn ctx() -> CookieContext {
    CookieContext { mode: DeploymentMode::Deployed, host: String::from("app.example.com") }
}

fn upstream_token() -> TokenResponse {
    TokenResponse {
        access_token: Some(String::from("up-access")),
        token_type: Some(String::from("Bearer")),
        expires_in: Some(1800),
        refresh_token: Some(String::from("up-refresh")),
        scope: Some(String::from("AccountAccess")),
        error: None,
    }
}

#[test]
fn test_sign_up_then_sign_in_round_trip() {
    // Sign-up with a passing challenge prepares a record whose hash verifies
    // the password; signing in against that record yields a 200 with both
    // tokens and both cookies.
    let req = AuthSignUpWithEmailPasswordRequest {
        cf_turnstile_response: String::from("challenge"),
        email: String::from("a@b.com"),
        password: String::from("Secret123!"),
    };
    let hash = hash_password("Secret123!");
    let (user, user_auth) =
        auth_sign_up_with_email_password(true, &req, hash).expect("rows prepared");
    assert_eq!(user.email, "a@b.com");
    assert!(verify_password("Secret123!", &user_auth.password_hash));
    assert_eq!(sign_up_completion_status(true), 200);

    let sign_in_req = AuthSignInWithEmailPasswordRequest {
        email: String::from("a@b.com"),
        password: String::from("Secret123!"),
    };
    let outcome = auth_sign_in_with_email_password(
        Some(&user_auth.password_hash),
        &sign_in_req,
        &env(),
        &ctx(),
        NOW,
    );
    assert_eq!(outcome.status, 200);
    assert!(!outcome.response.access_token.is_empty());
    assert!(!outcome.response.refresh_token.is_empty());
    assert_eq!(outcome.cookies.len(), 2);
    assert_eq!(outcome.cookies[0].name, "access_token");
    assert_eq!(outcome.cookies[0].value, outcome.response.access_token);
    assert_eq!(outcome.cookies[1].name, "refresh_token");
    assert_eq!(outcome.cookies[1].value, outcome.response.refresh_token);
    let claims = validate_token(&outcome.response.access_token, "access-secret", NOW + 1).unwrap();
    assert_eq!(claims.sub, "access_token");
}

#[test]
fn test_sign_up_refused_without_challenge_or_store() {
    let req = AuthSignUpWithEmailPasswordRequest {
        cf_turnstile_response: String::from("challenge"),
        email: String::from("a@b.com"),
        password: String::from("Secret123!"),
    };
    assert_eq!(auth_sign_up_with_email_password(false, &req, Err(HashError)).unwrap_err(), 400);
    // A challenge that passed but a password that failed to hash is the same
    // uniform refusal.
    assert_eq!(auth_sign_up_with_email_password(true, &req, Err(HashError)).unwrap_err(), 400);
    assert_eq!(sign_up_completion_status(false), 400);
}

#[test]
fn test_sign_in_failures_are_indistinguishable() {
    // Wrong password and unknown email: same status, same empty body, no
    // cookies either way.
    let hash = hash_password("Secret123!").unwrap();
    let req = AuthSignInWithEmailPasswordRequest {
        email: String::from("a@b.com"),
        password: String::from("WrongPassword!"),
    };
    let wrong_password = auth_sign_in_with_email_password(Some(&hash), &req, &env(), &ctx(), NOW);
    let unknown_email = auth_sign_in_with_email_password(None, &req, &env(), &ctx(), NOW);
    assert_eq!(wrong_password.status, 400);
    assert_eq!(unknown_email.status, 400);
    assert_eq!(wrong_password.cookies.len(), 0);
    assert_eq!(unknown_email.cookies.len(), 0);
    assert_eq!(wrong_password.response.access_token, unknown_email.response.access_token);
    assert_eq!(wrong_password.response.refresh_token, unknown_email.response.refresh_token);
    assert_eq!(wrong_password.response.access_token, "");
}

#[test]
fn test_refresh_rotates_and_sets_cookies() {
    let old = create_refresh_token("refresh-secret", NOW - 100);
    let body = AuthRefreshTokenBody { refresh_token: old };
    let outcome = auth_tradetracker_refresh_token(&body, &env(), &ctx(), NOW).unwrap();
    assert_eq!(outcome.status, 200);
    assert_eq!(outcome.cookies.len(), 2);
    assert_eq!(outcome.cookies[0].name, "refresh_token");
    assert_eq!(outcome.cookies[0].value, outcome.response.refresh_token);
    assert_eq!(outcome.cookies[1].name, "access_token");
    assert_eq!(outcome.cookies[1].value, outcome.response.access_token);
    // The cookie carries the newly issued refresh token, not the old one.
    assert_ne!(outcome.response.refresh_token, body.refresh_token);
    let claims = validate_token(&outcome.response.refresh_token, "refresh-secret", NOW + 1)
        .unwrap();
    assert_eq!(claims.iat, NOW);
}

#[test]
fn test_refresh_refuses_invalid_and_access_tokens() {
    let body = AuthRefreshTokenBody { refresh_token: String::from("junk") };
    assert_eq!(auth_tradetracker_refresh_token(&body, &env(), &ctx(), NOW).unwrap_err(), 401);
    let access = tda_server::jwt::create_access_token("refresh-secret", NOW - 100);
    let body = AuthRefreshTokenBody { refresh_token: access };
    assert_eq!(auth_tradetracker_refresh_token(&body, &env(), &ctx(), NOW).unwrap_err(), 401);
}

#[test]
fn test_callback_success_sets_provider_cookies() {
    let outcome = tda(Ok(upstream_token()), "https://app.example.com/", &ctx(), NOW);
    assert_eq!(outcome.redirect_to, "https://app.example.com/");
    assert_eq!(outcome.cookies.len(), 2);
    assert_eq!(outcome.cookies[0].name, "access_token_tda");
    assert_eq!(outcome.cookies[0].value, "up-access");
    assert_eq!(outcome.cookies[1].name, "refresh_token_tda");
    assert_eq!(outcome.cookies[1].value, "up-refresh");
}

#[test]
fn test_callback_with_used_code_sets_nothing() {
    // An already-used code is rejected upstream: no cookies, a quiet
    // redirect to the configured base URL.
    let outcome = tda(
        Err(TransportError::Rejected),
        "https://app.example.com/",
        &ctx(),
        NOW,
    );
    assert_eq!(outcome.cookies.len(), 0);
    assert_eq!(outcome.redirect_to, "https://app.example.com/");
}

#[test]
fn test_provider_refresh_flow() {
    let cookie_value = String::from("stored-upstream-refresh");
    assert_eq!(tda_refresh_request_token(Some(&cookie_value)).unwrap(), cookie_value);
    assert_eq!(tda_refresh_request_token(None).unwrap_err(), 401);

    let ok = auth_tda_refresh_token(Ok(upstream_token()), &ctx(), NOW);
    assert_eq!(ok.status, 200);
    assert_eq!(ok.cookies.len(), 2);
    assert_eq!(ok.cookies[0].name, "access_token");
    assert_eq!(ok.cookies[0].value, "up-access");
    assert_eq!(ok.cookies[1].name, "refresh_token");
    assert_eq!(ok.cookies[1].value, "up-refresh");

    let failed = auth_tda_refresh_token(Err(TransportError::Transient), &ctx(), NOW);
    assert_eq!(failed.status, 401);
    assert_eq!(failed.cookies.len(), 0);
    assert!(failed.response.access_token.is_none());
}

#[test]
fn test_gate_rejects_after_sign_out() {
    // After sign-out the client holds no cookie any more; authenticated
    // routes refuse the bare request.
    assert_eq!(auth(None, None, "access-secret", NOW).unwrap_err(), 401);
}

#[test]
fn test_verify_cf_response_fails_closed() {
    assert!(!verify_cf_response(None));
    let success = SiteVerifyResponseSuccess {
        success: true,
        challenge_ts: String::new(),
        hostname: String::new(),
        error_codes: Vec::new(),
        action: String::new(),
        cdata: String::new(),
    };
    assert!(verify_cf_response(Some(SiteVerifyResponse::Success(success.clone()))));
    let not_really = SiteVerifyResponseSuccess { success: false, ..success };
    assert!(!verify_cf_response(Some(SiteVerifyResponse::Success(not_really))));
    let error = SiteVerifyResponseError { success: false, error_codes: Vec::new() };
    assert!(!verify_cf_response(Some(SiteVerifyResponse::Error(error))));
}

#[test]
fn test_require_access_token_guard() {
    let value = String::from("tok");
    assert_eq!(require_access_token(Some(&value)).unwrap(), "tok");
    assert_eq!(require_access_token(None).unwrap_err(), 401);
}

#[test]
fn test_get_authorization_url_handler() {
    let client = TDAmeritradeClient::new(String::from("KEY"), String::from("https://cb/"));
    let (status, body) = get_authorization_url(&client);
    assert_eq!(status, 200);
    assert!(body.authorization_url.starts_with("https://auth.tdameritrade.com/auth?"));
    assert!(body.authorization_url.contains("https%3A%2F%2Fcb%2F"));
}
