//! Sign-out: unconditionally emit tombstones for every first-party and
//! provider-scoped cookie. There is no error path, and the result depends on
//! nothing but the deployment context and the instant, so signing out twice
//! produces the same cookie set both times.
use vstd::prelude::*;

use crate::cookie::Cookie;
use crate::cookie::CookieContext;
use crate::cookie::CookieView;
use crate::cookie::delete_access_token;
use crate::cookie::delete_refresh_token;
use crate::cookie::spec_cookie;

verus! {

/// The full tombstone set a sign-out response carries, in emission order.
pub open spec fn spec_sign_out_views(ctx: CookieContext, now: int) -> Seq<CookieView> {
    seq![
        spec_cookie("access_token"@, ""@, ctx, now),
        spec_cookie("refresh_token"@, ""@, ctx, now),
        spec_cookie("refresh_token_tda"@, ""@, ctx, now),
        spec_cookie("access_token_tda"@, ""@, ctx, now),
    ]
}

/// Expires every session cookie this service ever sets: the two first-party
/// cookies and their provider-scoped variants, each replaced by an empty
/// value that expired at `now`. Always succeeds.
pub fn auth_sign_out(ctx: &CookieContext, now: i64) -> (r: Vec<Cookie>)
    ensures
        (r@.map_values(|c: Cookie| c@)) =~= spec_sign_out_views(*ctx, now as int),
        r@.len() == 4,
        r@[0]@ == spec_cookie("access_token"@, ""@, *ctx, now as int),
        r@[1]@ == spec_cookie("refresh_token"@, ""@, *ctx, now as int),
        r@[2]@ == spec_cookie("refresh_token_tda"@, ""@, *ctx, now as int),
        r@[3]@ == spec_cookie("access_token_tda"@, ""@, *ctx, now as int),
{
    let access = delete_access_token(ctx, now);
    let mut access_tda = delete_access_token(ctx, now);
    access_tda.set_name(String::from_str("access_token_tda"));
    let refresh = delete_refresh_token(ctx, now);
    let mut refresh_tda = delete_refresh_token(ctx, now);
    refresh_tda.set_name(String::from_str("refresh_token_tda"));
    let mut r: Vec<Cookie> = Vec::new();
    r.push(access);
    r.push(refresh);
    r.push(refresh_tda);
    r.push(access_tda);
    proof {
        assert((r@.map_values(|c: Cookie| c@)) =~= spec_sign_out_views(*ctx, now as int));
    }
    r
}

/// Sign-out is idempotent: two responses built from the same deployment
/// context and instant carry identical tombstone cookies, attribute for
/// attribute.
pub proof fn lemma_sign_out_idempotent(
    r1: Seq<CookieView>,
    r2: Seq<CookieView>,
    ctx: CookieContext,
    now: int,
)
    requires
        r1 =~= spec_sign_out_views(ctx, now),
        r2 =~= spec_sign_out_views(ctx, now),
    ensures
        r1 =~= r2,
{
}

} // verus!
