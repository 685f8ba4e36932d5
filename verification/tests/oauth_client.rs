//! Upstream OAuth client: authorization URL, exchange bodies, and the
//! interpretation of the token endpoint's answers.
use tda_server::tda_client::TDAmeritradeClient;
use tda_server::tda_client::TokenResponse;
use tda_server::tda_client::interpret_exchange_response;
use tda_server::transport::TransportError;

fn client() -> TDAmeritradeClient {
    TDAmeritradeClient::new(
        String::from("GUUU9EWYV1ULXCG7GCTSQDFI73FHZGNT"),
        String::from("https://localhost:3000/api/auth/callback/tda"),
    )
}

fn clean_token() -> TokenResponse {
    TokenResponse {
        access_token: Some(String::from("a")),
        token_type: Some(String::from("Bearer")),
        expires_in: Some(1800),
        refresh_token: Some(String::from("r")),
        scope: Some(String::from("AccountAccess")),
        error: None,
    }
}

#[test]
fn td_client_test_get_authorization_url() {
    let url = client().get_authorization_url();
    assert_eq!(
        url,
        "https://auth.tdameritrade.com/auth?response_type=code&redirect_uri=https%3A%2F%2Flocalhost%3A3000%2Fapi%2Fauth%2Fcallback%2Ftda&client_id=GUUU9EWYV1ULXCG7GCTSQDFI73FHZGNT%40AMER.OAUTHAP&scope=AccountAccess"
    );
}

#[test]
fn auth_test_get_authorization_url() {
    let url = client().get_authorization_url();
    assert_eq!(
        url,
        "https://auth.tdameritrade.com/auth?response_type=code&redirect_uri=https%3A%2F%2Flocalhost%3A3000%2Fapi%2Fauth%2Fcallback%2Ftda&client_id=GUUU9EWYV1ULXCG7GCTSQDFI73FHZGNT%40AMER.OAUTHAP&scope=AccountAccess"
    );
}

#[test]
fn test_token_endpoint() {
    assert_eq!(client().token_endpoint(), "https://api.tdameritrade.com/v1/oauth2/token");
}

#[test]
fn test_authorization_code_exchange_params() {
    let params = client().authorization_code_exchange_params("one-time-code");
    let expected: Vec<(String, String)> = vec![
        ("grant_type".into(), "authorization_code".into()),
        ("access_type".into(), "offline".into()),
        ("code".into(), "one-time-code".into()),
        ("client_id".into(), "GUUU9EWYV1ULXCG7GCTSQDFI73FHZGNT".into()),
        ("redirect_uri".into(), "https://localhost:3000/api/auth/callback/tda".into()),
    ];
    assert_eq!(params, expected);
}

#[test]
fn test_refresh_token_exchange_params() {
    let params = client().refresh_token_exchange_params("upstream-refresh");
    let expected: Vec<(String, String)> = vec![
        ("grant_type".into(), "refresh_token".into()),
        ("refresh_token".into(), "upstream-refresh".into()),
        ("client_id".into(), "GUUU9EWYV1ULXCG7GCTSQDFI73FHZGNT".into()),
    ];
    assert_eq!(params, expected);
}

#[test]
fn test_interpret_success_response() {
    let r = interpret_exchange_response(200, Some(clean_token())).unwrap();
    assert_eq!(r.access_token.as_deref(), Some("a"));
    assert_eq!(r.refresh_token.as_deref(), Some("r"));
}

#[test]
fn test_interpret_error_envelope_is_rejected() {
    let mut t = clean_token();
    t.error = Some(String::from("invalid_grant"));
    let err = interpret_exchange_response(200, Some(t)).unwrap_err();
    assert_eq!(err, TransportError::Rejected);
}

#[test]
fn test_interpret_client_error_is_rejected() {
    let err = interpret_exchange_response(400, Some(clean_token())).unwrap_err();
    assert_eq!(err, TransportError::Rejected);
    let err = interpret_exchange_response(404, None).unwrap_err();
    assert_eq!(err, TransportError::Rejected);
}

#[test]
fn test_interpret_server_error_is_transient() {
    let err = interpret_exchange_response(500, None).unwrap_err();
    assert_eq!(err, TransportError::Transient);
    let err = interpret_exchange_response(503, Some(clean_token())).unwrap_err();
    assert_eq!(err, TransportError::Transient);
}

#[test]
fn test_interpret_unparsable_success_is_malformed() {
    let err = interpret_exchange_response(200, None).unwrap_err();
    assert_eq!(err, TransportError::Malformed);
}

#[test]
fn test_default_token_response_is_empty() {
    let t = TokenResponse::default();
    assert!(t.access_token.is_none());
    assert!(t.refresh_token.is_none());
    assert!(t.error.is_none());
    assert!(t.expires_in.is_none());
}
