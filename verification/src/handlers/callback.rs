//! OAuth callback: the one-time code from the redirect has been exchanged
//! upstream (through the resilient transport); here the outcome is folded
//! into provider-scoped cookies. The browser is always redirected to the
//! configured base URL — a failed exchange (an expired or already-used code)
//! sets no cookies and surfaces no upstream error detail.
use vstd::prelude::*;

use crate::cookie::ACCESS_COOKIE_TTL;
use crate::cookie::Cookie;
use crate::cookie::CookieContext;
use crate::cookie::MAX_COOKIE_INSTANT;
use crate::cookie::REFRESH_COOKIE_TTL;
use crate::cookie::spec_cookie;
use crate::tda_client::TokenResponse;
use crate::transport::TransportError;

verus! {

/// Query string of the callback: the one-time authorization code.
pub struct AuthCallbackTdaQuery {
    pub code: String,
}

/// What the callback sends back: cookies to set and where to redirect.
#[derive(Debug)]
pub struct CallbackOutcome {
    pub cookies: Vec<Cookie>,
    pub redirect_to: String,
}

/// The upstream token string to store, or the empty string where the
/// envelope omitted it.
pub open spec fn spec_token_or_empty(t: Option<String>) -> Seq<char> {
    match t {
        Some(s) => s@,
        None => ""@,
    }
}

fn token_or_empty(t: Option<String>) -> (r: String)
    ensures
        r@ == spec_token_or_empty(t),
{
    match t {
        Some(s) => s,
        None => {
            let r = String::new();
            proof {
                reveal_strlit("");
                assert(r@ =~= ""@);
            }
            r
        },
    }
}

/// Folds the result of the authorization-code exchange into the response.
/// On success the two provider-scoped cookies carry the upstream tokens; on
/// any failure no cookie is set. Either way the browser is redirected to
/// `base_url`, never shown an error.
pub fn tda(
    exchange: Result<TokenResponse, TransportError>,
    base_url: &str,
    ctx: &CookieContext,
    now: i64,
) -> (r: CallbackOutcome)
    requires
        now <= MAX_COOKIE_INSTANT,
    ensures
        r.redirect_to@ == base_url@,
        exchange is Err ==> r.cookies@.len() == 0,
        exchange matches Ok(t) ==> r.cookies@.len() == 2 && r.cookies@[0]@ == spec_cookie(
            "access_token_tda"@,
            spec_token_or_empty(t.access_token),
            *ctx,
            now + ACCESS_COOKIE_TTL,
        ) && r.cookies@[1]@ == spec_cookie(
            "refresh_token_tda"@,
            spec_token_or_empty(t.refresh_token),
            *ctx,
            now + REFRESH_COOKIE_TTL,
        ),
{
    let redirect_to = String::from_str(base_url);
    let token = match exchange {
        Ok(t) => t,
        Err(_) => {
            return CallbackOutcome { cookies: Vec::new(), redirect_to };
        },
    };
    let mut access = crate::cookie::create_access_token(
        token_or_empty(token.access_token),
        ctx,
        now,
    );
    access.set_name(String::from_str("access_token_tda"));
    let mut refresh = crate::cookie::create_refresh_token(
        token_or_empty(token.refresh_token),
        ctx,
        now,
    );
    refresh.set_name(String::from_str("refresh_token_tda"));
    let mut cookies: Vec<Cookie> = Vec::new();
    cookies.push(access);
    cookies.push(refresh);
    CallbackOutcome { cookies, redirect_to }
}

} // verus!
