//! First-party refresh: validate and rotate the offered refresh token, mint
//! a fresh access token, and set both cookies. A refused token yields a 401
//! and no cookies, leaving whatever the client holds untouched; the cookies
//! always carry the newly issued refresh token, never the old one.
use vstd::prelude::*;

use crate::Env;
use crate::cookie::ACCESS_COOKIE_TTL;
use crate::cookie::Cookie;
use crate::cookie::CookieContext;
use crate::cookie::REFRESH_COOKIE_TTL;
use crate::cookie::spec_cookie;
use crate::jwt::ACCESS_TOKEN_TTL;
use crate::jwt::MAX_TOKEN_INSTANT;
use crate::jwt::REFRESH_TOKEN_TTL;
use crate::jwt::spec_jwt_token;
use crate::jwt::spec_rotation_accepted;

verus! {

/// Body of the refresh request: the refresh token to redeem.
pub struct AuthRefreshTokenBody {
    pub refresh_token: String,
}

/// Body of a successful refresh response: both fresh tokens.
#[derive(Debug)]
pub struct AuthRefreshTokenResponse {
    pub access_token: String,
    pub refresh_token: String,
}

/// Status, cookies and body of a successful refresh.
#[derive(Debug)]
pub struct RefreshOutcome {
    pub status: u16,
    pub cookies: Vec<Cookie>,
    pub response: AuthRefreshTokenResponse,
}

/// What a successful refresh at instant `now` looks like: a 200 carrying the
/// rotated refresh token and a fresh access token, in the body and in the
/// two session cookies (refresh first, as the endpoint emits them).
pub open spec fn spec_refresh_accepted(
    r: RefreshOutcome,
    env: Env,
    ctx: CookieContext,
    now: int,
) -> bool {
    let access = spec_jwt_token(
        "access_token"@,
        now,
        now + ACCESS_TOKEN_TTL,
        env.jwt_access_token_secret@,
    );
    let refresh = spec_jwt_token(
        "refresh_token"@,
        now,
        now + REFRESH_TOKEN_TTL,
        env.jwt_refresh_token_secret@,
    );
    &&& r.status == 200u16
    &&& r.cookies@.len() == 2
    &&& r.cookies@[0]@ == spec_cookie("refresh_token"@, refresh, ctx, now + REFRESH_COOKIE_TTL)
    &&& r.cookies@[1]@ == spec_cookie("access_token"@, access, ctx, now + ACCESS_COOKIE_TTL)
    &&& r.response.access_token@ == access
    &&& r.response.refresh_token@ == refresh
}

/// Decides a first-party refresh. Succeeds exactly when the offered token is
/// a still-valid refresh token under the refresh secret; then both tokens
/// are reminted at `now`. Every refusal is a bare 401 with no cookies, so a
/// definitively invalid token never clears client state here and a valid
/// one is never dropped.
pub fn auth_tradetracker_refresh_token(
    body: &AuthRefreshTokenBody,
    env: &Env,
    ctx: &CookieContext,
    now: i64,
) -> (r: Result<RefreshOutcome, u16>)
    requires
        now <= MAX_TOKEN_INSTANT,
    ensures
        r is Ok <==> spec_rotation_accepted(
            body.refresh_token@,
            env.jwt_refresh_token_secret@,
            now as int,
        ),
        r matches Ok(o) ==> spec_refresh_accepted(o, *env, *ctx, now as int),
        r matches Err(code) ==> code == 401u16,
{
    let refresh_token = match crate::jwt::exchange_refresh_token(
        body.refresh_token.as_str(),
        env.jwt_refresh_token_secret.as_str(),
        now,
    ) {
        Ok(t) => t,
        Err(_) => {
            return Err(401);
        },
    };
    let access_token = crate::jwt::create_access_token(env.jwt_access_token_secret.as_str(), now);
    let mut cookies: Vec<Cookie> = Vec::new();
    cookies.push(crate::cookie::create_refresh_token(refresh_token.clone(), ctx, now));
    cookies.push(crate::cookie::create_access_token(access_token.clone(), ctx, now));
    Ok(
        RefreshOutcome {
            status: 200,
            cookies,
            response: AuthRefreshTokenResponse { access_token, refresh_token },
        },
    )
}

} // verus!
