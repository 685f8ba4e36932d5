//! Password sign-in: look the credential record up by email, verify the
//! password, and on success mint both first-party tokens and their cookies.
//! Unknown email and wrong password produce one indistinguishable outcome,
//! so the endpoint cannot be used to enumerate users.
use vstd::prelude::*;

use crate::Env;
use crate::cookie::ACCESS_COOKIE_TTL;
use crate::cookie::Cookie;
use crate::cookie::CookieContext;
use crate::cookie::REFRESH_COOKIE_TTL;
use crate::cookie::spec_cookie;
use crate::jwt::ACCESS_TOKEN_TTL;
use crate::jwt::MAX_TOKEN_INSTANT;
use crate::jwt::REFRESH_TOKEN_TTL;
use crate::jwt::spec_jwt_token;
use crate::password::spec_password_matches;

verus! {

/// Credentials presented to the password sign-in endpoint.
pub struct AuthSignInWithEmailPasswordRequest {
    pub email: String,
    pub password: String,
}

/// Token payload of a sign-in response; empty on failure.
#[derive(Debug)]
pub struct AuthSignInWithEmailPasswordResponse {
    pub access_token: String,
    pub refresh_token: String,
}

impl Default for AuthSignInWithEmailPasswordResponse {
    /// The empty payload sent with every failed sign-in.
    fn default() -> (r: AuthSignInWithEmailPasswordResponse)
        ensures
            r.access_token@ == Seq::<char>::empty(),
            r.refresh_token@ == Seq::<char>::empty(),
    {
        AuthSignInWithEmailPasswordResponse {
            access_token: String::new(),
            refresh_token: String::new(),
        }
    }
}

/// Everything the endpoint sends back: status, response cookies, body.
#[derive(Debug)]
pub struct SignInOutcome {
    pub status: u16,
    pub cookies: Vec<Cookie>,
    pub response: AuthSignInWithEmailPasswordResponse,
}

/// The single failure shape: a 400, no cookies set, an empty token payload.
pub open spec fn spec_sign_in_rejected(r: SignInOutcome) -> bool {
    &&& r.status == 400u16
    &&& r.cookies@.len() == 0
    &&& r.response.access_token@ == Seq::<char>::empty()
    &&& r.response.refresh_token@ == Seq::<char>::empty()
}

/// The success shape: a 200 carrying both freshly minted tokens, in the body
/// and in the two session cookies.
pub open spec fn spec_sign_in_accepted(
    r: SignInOutcome,
    env: Env,
    ctx: CookieContext,
    now: int,
) -> bool {
    let access = spec_jwt_token(
        "access_token"@,
        now,
        now + ACCESS_TOKEN_TTL,
        env.jwt_access_token_secret@,
    );
    let refresh = spec_jwt_token(
        "refresh_token"@,
        now,
        now + REFRESH_TOKEN_TTL,
        env.jwt_refresh_token_secret@,
    );
    &&& r.status == 200u16
    &&& r.cookies@.len() == 2
    &&& r.cookies@[0]@ == spec_cookie("access_token"@, access, ctx, now + ACCESS_COOKIE_TTL)
    &&& r.cookies@[1]@ == spec_cookie("refresh_token"@, refresh, ctx, now + REFRESH_COOKIE_TTL)
    &&& r.response.access_token@ == access
    &&& r.response.refresh_token@ == refresh
    &&& r.response.access_token@.len() > 0
    &&& r.response.refresh_token@.len() > 0
}

fn rejected_outcome() -> (r: SignInOutcome)
    ensures
        spec_sign_in_rejected(r),
{
    SignInOutcome {
        status: 400,
        cookies: Vec::new(),
        response: AuthSignInWithEmailPasswordResponse::default(),
    }
}

/// Decides a password sign-in. `stored_hash` is what the credential store
/// returned for the request's email (`None`: no such user). Success requires
/// a record whose hash verifies the offered password; every other case is
/// the one rejected outcome.
pub fn auth_sign_in_with_email_password(
    stored_hash: Option<&String>,
    req: &AuthSignInWithEmailPasswordRequest,
    env: &Env,
    ctx: &CookieContext,
    now: i64,
) -> (r: SignInOutcome)
    requires
        now <= MAX_TOKEN_INSTANT,
    ensures
        (stored_hash matches Some(h) && spec_password_matches(req.password@, h@))
            ==> spec_sign_in_accepted(r, *env, *ctx, now as int),
        !(stored_hash matches Some(h) && spec_password_matches(req.password@, h@))
            ==> spec_sign_in_rejected(r),
{
    let hash = match stored_hash {
        Some(h) => h,
        None => {
            return rejected_outcome();
        },
    };
    if !crate::password::verify_password(req.password.as_str(), hash.as_str()) {
        return rejected_outcome();
    }
    let access_token = crate::jwt::create_access_token(env.jwt_access_token_secret.as_str(), now);
    let refresh_token = crate::jwt::create_refresh_token(
        env.jwt_refresh_token_secret.as_str(),
        now,
    );
    let access_cookie = crate::cookie::create_access_token(access_token.clone(), ctx, now);
    let refresh_cookie = crate::cookie::create_refresh_token(refresh_token.clone(), ctx, now);
    let mut cookies: Vec<Cookie> = Vec::new();
    cookies.push(access_cookie);
    cookies.push(refresh_cookie);
    SignInOutcome {
        status: 200,
        cookies,
        response: AuthSignInWithEmailPasswordResponse { access_token, refresh_token },
    }
}

/// Unknown email and wrong password are one observable outcome: any two
/// rejected sign-ins carry the same status, the same (empty) cookie set and
/// the same body, so neither case can be told from the other.
pub proof fn lemma_sign_in_uniform_failure(r1: SignInOutcome, r2: SignInOutcome)
    requires
        spec_sign_in_rejected(r1),
        spec_sign_in_rejected(r2),
    ensures
        r1.status == r2.status,
        (r1.cookies@.map_values(|c: Cookie| c@)) =~= (r2.cookies@.map_values(|c: Cookie| c@)),
        r1.response.access_token@ == r2.response.access_token@,
        r1.response.refresh_token@ == r2.response.refresh_token@,
{
}

} // verus!
