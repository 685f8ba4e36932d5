//! Provider refresh: redeem the `refresh_token_tda` cookie upstream and fold
//! the new envelope into first-party-named session cookies. A missing cookie
//! is a 401 before any network call; a failed exchange is a 401 with no
//! cookies, so the client's refresh state survives transient trouble.
use vstd::prelude::*;

use crate::cookie::ACCESS_COOKIE_TTL;
use crate::cookie::Cookie;
use crate::cookie::CookieContext;
use crate::cookie::MAX_COOKIE_INSTANT;
use crate::cookie::REFRESH_COOKIE_TTL;
use crate::cookie::spec_cookie;
use crate::handlers::callback::spec_token_or_empty;
use crate::tda_client::TokenResponse;
use crate::transport::TransportError;

verus! {

/// Status, cookies and body of the provider-refresh response.
#[derive(Debug)]
pub struct TdaRefreshOutcome {
    pub status: u16,
    pub cookies: Vec<Cookie>,
    pub response: TokenResponse,
}

/// First step of the provider refresh: without a `refresh_token_tda` cookie
/// the request is refused with a 401 before anything is exchanged.
pub fn tda_refresh_request_token(refresh_cookie: Option<&String>) -> (r: Result<String, u16>)
    ensures
        r is Ok <==> refresh_cookie is Some,
        r matches Ok(t) ==> (refresh_cookie matches Some(c) && t@ == c@),
        r matches Err(code) ==> code == 401u16,
{
    match refresh_cookie {
        Some(c) => Ok(c.clone()),
        None => Err(401),
    }
}

/// Folds the upstream exchange's outcome into the response: on success a 200
/// whose cookies carry the newly issued tokens and whose body is the
/// upstream envelope; on failure a 401 with no cookies and an empty
/// envelope, leaving the client's cookies untouched.
pub fn auth_tda_refresh_token(
    exchange: Result<TokenResponse, TransportError>,
    ctx: &CookieContext,
    now: i64,
) -> (r: TdaRefreshOutcome)
    requires
        now <= MAX_COOKIE_INSTANT,
    ensures
        exchange is Err ==> r.status == 401u16 && r.cookies@.len() == 0
            && r.response.access_token is None && r.response.refresh_token is None
            && r.response.error is None,
        exchange matches Ok(t) ==> r.status == 200u16 && r.response == t && r.cookies@.len() == 2
            && r.cookies@[0]@ == spec_cookie(
            "access_token"@,
            spec_token_or_empty(t.access_token),
            *ctx,
            now + ACCESS_COOKIE_TTL,
        ) && r.cookies@[1]@ == spec_cookie(
            "refresh_token"@,
            spec_token_or_empty(t.refresh_token),
            *ctx,
            now + REFRESH_COOKIE_TTL,
        ),
{
    let token = match exchange {
        Ok(t) => t,
        Err(_) => {
            return TdaRefreshOutcome {
                status: 401,
                cookies: Vec::new(),
                response: TokenResponse::empty(),
            };
        },
    };
    let access_value = match &token.access_token {
        Some(s) => s.clone(),
        None => String::new(),
    };
    let refresh_value = match &token.refresh_token {
        Some(s) => s.clone(),
        None => String::new(),
    };
    proof {
        reveal_strlit("");
        assert(access_value@ =~= spec_token_or_empty(token.access_token));
        assert(refresh_value@ =~= spec_token_or_empty(token.refresh_token));
    }
    let mut cookies: Vec<Cookie> = Vec::new();
    cookies.push(crate::cookie::create_access_token(access_value, ctx, now));
    cookies.push(crate::cookie::create_refresh_token(refresh_value, ctx, now));
    TdaRefreshOutcome { status: 200, cookies, response: token }
}

} // verus!
