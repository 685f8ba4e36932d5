//! Sign-up: verify the anti-automation challenge, hash the password, and
//! only then persist a credential record. Any failed step short-circuits to
//! a 400 with nothing persisted: the store rows are prepared here and handed
//! out only when every earlier step has passed.
use vstd::prelude::*;

use crate::database_client::CreateUser;
use crate::database_client::CreateUserAuth;
use crate::password::HashError;

verus! {

/// Body of the sign-up request: the bot-verification challenge response and
/// the credentials to register.
pub struct AuthSignUpWithEmailPasswordRequest {
    pub cf_turnstile_response: String,
    pub email: String,
    pub password: String,
}

/// Prepares the rows a sign-up persists. `cf_ok` is the verdict of the
/// bot-verification call on the request's challenge response; `hash` is what
/// the password engine returned for the request's password (the caller hashes
/// only once the challenge has passed). Rows come back exactly when the
/// challenge passed and the password hashed — the credential row carries that
/// hash, the user row the request's email. Every refusal is the uniform 400.
pub fn auth_sign_up_with_email_password(
    cf_ok: bool,
    req: &AuthSignUpWithEmailPasswordRequest,
    hash: Result<String, HashError>,
) -> (r: Result<(CreateUser, CreateUserAuth), u16>)
    ensures
        r is Ok <==> (cf_ok && hash is Ok),
        r matches Ok(rows) ==> (hash matches Ok(h) && rows.0.email@ == req.email@
            && rows.1.password_hash@ == h@),
        r matches Err(code) ==> code == 400u16,
{
    if !cf_ok {
        return Err(400);
    }
    let password_hash = match hash {
        Ok(h) => h,
        Err(_) => {
            return Err(400);
        },
    };
    Ok((CreateUser { email: req.email.clone() }, CreateUserAuth { password_hash }))
}

/// Final status of a sign-up once the store answered: 200 when the insert
/// went through, the uniform 400 otherwise (a uniqueness violation surfaces
/// as a store-level failure, never as its own error shape).
pub fn sign_up_completion_status(store_ok: bool) -> (code: u16)
    ensures
        code == (if store_ok {
            200u16
        } else {
            400u16
        }),
{
    if store_ok {
        200
    } else {
        400
    }
}

} // verus!
