//! Data shapes of the managed identity provider's REST authentication API,
//! and the verdicts the sign-up flow draws from them. The HTTP calls live in
//! the unverified shell, behind the resilient transport.
use vstd::prelude::*;

use crate::jwt::TokenClaims;

verus! {

/// One detail entry of the provider's error envelope.
#[derive(Clone, Debug, PartialEq)]
pub struct FirebaseErrorDetail {
    pub message: String,
    pub domain: String,
    pub reason: String,
}

/// The provider's error payload.
#[derive(Clone, Debug, PartialEq)]
pub struct FirebaseError {
    pub code: i64,
    pub message: String,
    pub errors: Vec<FirebaseErrorDetail>,
}

/// The provider's error envelope.
#[derive(Clone, Debug, PartialEq)]
pub struct FirebaseErrorResponse {
    pub error: FirebaseError,
}

/// Request body of the refresh-token login call.
#[derive(Debug)]
pub struct FirebaseClientAuthenticationLoginWithRefreshTokenRequest {
    pub grant_type: String,
    pub refresh_token: bool,
}

/// Response body of the refresh-token login call.
#[derive(Debug)]
pub struct FirebaseClientAuthenticationLoginWithRefreshTokenResponse {
    pub expires_in: String,
    pub token_type: String,
    pub refresh_token: String,
    pub id_token: String,
    pub user_id: String,
    pub project_id: String,
}

/// Request body of the custom-token login call.
#[derive(Debug)]
pub struct FirebaseClientAuthenticationLoginWithCustomTokenRequest {
    pub token: String,
    pub return_secure_token: bool,
}

/// Response body of the custom-token login call.
#[derive(Debug)]
pub struct FirebaseClientAuthenticationLoginWithCustomTokenResponse {
    pub id_token: String,
    pub refresh_token: String,
    pub expires_in: String,
}

/// Request body of the email/password sign-up call.
#[derive(Debug)]
pub struct FirebaseClientAuthenticationSignUpWithEmailPasswordRequest {
    pub email: String,
    pub password: String,
    pub return_secure_token: bool,
}

/// Success payload of the email/password sign-up call.
#[derive(Clone, Debug, PartialEq)]
pub struct FirebaseClientAuthenticationSignUpWithEmailPasswordResponseSuccess {
    pub id_token: String,
    pub email: String,
    pub refresh_token: String,
    pub expires_in: String,
    pub local_id: String,
}

impl Default for FirebaseClientAuthenticationSignUpWithEmailPasswordResponseSuccess {
    /// The all-empty success payload.
    fn default() -> (r: FirebaseClientAuthenticationSignUpWithEmailPasswordResponseSuccess)
        ensures
            r.id_token@ == Seq::<char>::empty(),
            r.email@ == Seq::<char>::empty(),
            r.refresh_token@ == Seq::<char>::empty(),
            r.expires_in@ == Seq::<char>::empty(),
            r.local_id@ == Seq::<char>::empty(),
    {
        FirebaseClientAuthenticationSignUpWithEmailPasswordResponseSuccess {
            id_token: String::new(),
            email: String::new(),
            refresh_token: String::new(),
            expires_in: String::new(),
            local_id: String::new(),
        }
    }
}

/// What the sign-up call answers with: its success payload or the error
/// envelope.
#[derive(Clone, Debug, PartialEq)]
pub enum FirebaseClientAuthenticationSignUpWithEmailPasswordResponse {
    Success(FirebaseClientAuthenticationSignUpWithEmailPasswordResponseSuccess),
    Error(FirebaseErrorResponse),
}

impl Default for FirebaseClientAuthenticationSignUpWithEmailPasswordResponse {
    /// An empty success payload, handed out when no usable response exists.
    fn default() -> (r: FirebaseClientAuthenticationSignUpWithEmailPasswordResponse)
        ensures
            r matches FirebaseClientAuthenticationSignUpWithEmailPasswordResponse::Success(s)
                && s.id_token@ == Seq::<char>::empty(),
    {
        FirebaseClientAuthenticationSignUpWithEmailPasswordResponse::Success(
            FirebaseClientAuthenticationSignUpWithEmailPasswordResponseSuccess::default(),
        )
    }
}

/// Request body of the email/password sign-in call.
#[derive(Debug)]
pub struct FirebaseClientAuthenticationSignInWithEmailPasswordRequest {
    pub email: String,
    pub password: String,
    pub return_secure_token: bool,
}

/// Response body of the email/password sign-in call.
#[derive(Debug)]
pub struct FirebaseClientAuthenticationSignInWithEmailPasswordResponse {
    pub id_token: String,
    pub email: String,
    pub jwt: TokenClaims,
}

/// Status of a provider-backed sign-up once the challenge verdict and the
/// provider's answer are in: only a passed challenge together with the
/// provider's success payload yields a 200; everything else is the uniform
/// 400.
pub fn sign_up_response_status(
    cf_ok: bool,
    response: &FirebaseClientAuthenticationSignUpWithEmailPasswordResponse,
) -> (code: u16)
    ensures
        code == 200u16 <==> (cf_ok
            && response is Success),
        code == 200u16 || code == 400u16,
{
    if !cf_ok {
        return 400;
    }
    match response {
        FirebaseClientAuthenticationSignUpWithEmailPasswordResponse::Success(_) => 200,
        FirebaseClientAuthenticationSignUpWithEmailPasswordResponse::Error(_) => 400,
    }
}

} // verus!
