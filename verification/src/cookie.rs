//! Session-cookie manager: derives cookie security attributes (domain, path,
//! `SameSite`, `Secure`, expiry) from the deployment context and mints or
//! expires the session cookies.
use vstd::prelude::*;

verus! {

/// Lifetime of a freshly minted access-token cookie, in seconds.
pub const ACCESS_COOKIE_TTL: i64 = 1800;

/// Lifetime of a freshly minted refresh-token cookie, in seconds.
pub const REFRESH_COOKIE_TTL: i64 = 604800;

/// Largest instant (unix seconds) at which cookies can still be minted
/// without the expiry computation overflowing.
pub const MAX_COOKIE_INSTANT: i64 = 9223372036854775807 - 604800;

/// Whether the process serves local development traffic or a deployed host.
/// Resolved once at startup; never re-evaluated per request.
#[derive(Clone, Copy, Debug, PartialEq, Eq, Structural)]
pub enum DeploymentMode {
    Local,
    Deployed,
}

/// The `SameSite` attribute values this service ever emits.
#[derive(Clone, Copy, Debug, PartialEq, Eq, Structural)]
pub enum SameSitePolicy {
    Strict,
    Lax,
}

/// The two first-party cookie kinds, which differ only in their lifetime.
#[derive(Clone, Copy, Debug, PartialEq, Eq, Structural)]
pub enum CookieKind {
    Access,
    Refresh,
}

/// Deployment context a cookie's security attributes are derived from.
#[derive(Debug)]
pub struct CookieContext {
    pub mode: DeploymentMode,
    /// Host that deployed cookies are pinned to (from the configured base URL).
    pub host: String,
}

/// A response cookie with every attribute this service sets.
#[derive(Debug)]
pub struct Cookie {
    pub name: String,
    pub value: String,
    pub domain: String,
    pub path: String,
    pub same_site: SameSitePolicy,
    pub secure: bool,
    /// Expiry instant in unix seconds.
    pub expires_at: i64,
}

/// Mathematical image of a `Cookie`: what a client can observe of it.
#[verifier::ext_equal]
pub ghost struct CookieView {
    pub name: Seq<char>,
    pub value: Seq<char>,
    pub domain: Seq<char>,
    pub path: Seq<char>,
    pub same_site: SameSitePolicy,
    pub secure: bool,
    pub expires_at: int,
}

impl View for Cookie {
    type V = CookieView;

    open spec fn view(&self) -> CookieView {
        CookieView {
            name: self.name@,
            value: self.value@,
            domain: self.domain@,
            path: self.path@,
            same_site: self.same_site,
            secure: self.secure,
            expires_at: self.expires_at as int,
        }
    }
}

/// Domain attribute dictated by the deployment context: local development
/// stays on `localhost`, a deployed process pins to the configured host.
pub open spec fn spec_domain(ctx: CookieContext) -> Seq<char> {
    if ctx.mode is Local {
        "localhost"@
    } else {
        ctx.host@
    }
}

/// `SameSite` attribute dictated by the deployment context.
pub open spec fn spec_same_site(ctx: CookieContext) -> SameSitePolicy {
    if ctx.mode is Local {
        SameSitePolicy::Strict
    } else {
        SameSitePolicy::Lax
    }
}

/// The `Secure` flag is enforced exactly on deployed hosts.
pub open spec fn spec_secure(ctx: CookieContext) -> bool {
    ctx.mode is Deployed
}

/// The one cookie this service mints for a given name, value, context and
/// expiry instant.
pub open spec fn spec_cookie(
    name: Seq<char>,
    value: Seq<char>,
    ctx: CookieContext,
    expires_at: int,
) -> CookieView {
    CookieView {
        name,
        value,
        domain: spec_domain(ctx),
        path: "/"@,
        same_site: spec_same_site(ctx),
        secure: spec_secure(ctx),
        expires_at,
    }
}

/// Lifetime in seconds granted to each cookie kind.
pub open spec fn spec_kind_ttl(kind: CookieKind) -> int {
    if kind is Access {
        ACCESS_COOKIE_TTL as int
    } else {
        REFRESH_COOKIE_TTL as int
    }
}

/// Overwrites a cookie's security attributes with the ones the deployment
/// context dictates; the name, value and expiry are left untouched.
pub fn set_cookie_restrictions(cookie: &mut Cookie, ctx: &CookieContext)
    ensures
        final(cookie).name == old(cookie).name,
        final(cookie).value == old(cookie).value,
        final(cookie).expires_at == old(cookie).expires_at,
        final(cookie).domain@ == spec_domain(*ctx),
        final(cookie).path@ == "/"@,
        final(cookie).same_site == spec_same_site(*ctx),
        final(cookie).secure == spec_secure(*ctx),
{
    match ctx.mode {
        DeploymentMode::Local => {
            cookie.domain = String::from_str("localhost");
            cookie.secure = false;
            cookie.same_site = SameSitePolicy::Strict;
        },
        DeploymentMode::Deployed => {
            cookie.domain = ctx.host.clone();
            cookie.secure = true;
            cookie.same_site = SameSitePolicy::Lax;
        },
    }
    cookie.path = String::from_str("/");
}

/// Builds a cookie with the context's security attributes and the given
/// expiry instant.
pub fn create_cookie(name: String, value: String, ctx: &CookieContext, expires_at: i64) -> (c:
    Cookie)
    ensures
        c@ == spec_cookie(name@, value@, *ctx, expires_at as int),
{
    let mut c = Cookie {
        name,
        value,
        domain: String::new(),
        path: String::new(),
        same_site: SameSitePolicy::Strict,
        secure: false,
        expires_at,
    };
    set_cookie_restrictions(&mut c, ctx);
    c
}

/// Builds a session cookie of the given kind, expiring one kind-specific
/// lifetime after `now`.
pub fn build(name: String, value: String, kind: CookieKind, ctx: &CookieContext, now: i64) -> (c:
    Cookie)
    requires
        now <= MAX_COOKIE_INSTANT,
    ensures
        c@ == spec_cookie(name@, value@, *ctx, now + spec_kind_ttl(kind)),
{
    let ttl: i64 = match kind {
        CookieKind::Access => ACCESS_COOKIE_TTL,
        CookieKind::Refresh => REFRESH_COOKIE_TTL,
    };
    create_cookie(name, value, ctx, now + ttl)
}

/// Mints the first-party access-token cookie holding `access_token`.
pub fn create_access_token(access_token: String, ctx: &CookieContext, now: i64) -> (c: Cookie)
    requires
        now <= MAX_COOKIE_INSTANT,
    ensures
        c@ == spec_cookie("access_token"@, access_token@, *ctx, now + ACCESS_COOKIE_TTL),
{
    build(String::from_str("access_token"), access_token, CookieKind::Access, ctx, now)
}

/// Tombstone for the access-token cookie: empty value, already expired at
/// `now`, so the client drops its copy.
pub fn delete_access_token(ctx: &CookieContext, now: i64) -> (c: Cookie)
    ensures
        c@ == spec_cookie("access_token"@, ""@, *ctx, now as int),
{
    let c = create_cookie(String::from_str("access_token"), String::new(), ctx, now);
    proof {
        reveal_strlit("");
        assert(c@ =~= spec_cookie("access_token"@, ""@, *ctx, now as int));
    }
    c
}

/// Mints the first-party refresh-token cookie holding `refresh_token`.
pub fn create_refresh_token(refresh_token: String, ctx: &CookieContext, now: i64) -> (c: Cookie)
    requires
        now <= MAX_COOKIE_INSTANT,
    ensures
        c@ == spec_cookie("refresh_token"@, refresh_token@, *ctx, now + REFRESH_COOKIE_TTL),
{
    build(String::from_str("refresh_token"), refresh_token, CookieKind::Refresh, ctx, now)
}

/// Tombstone for the refresh-token cookie.
pub fn delete_refresh_token(ctx: &CookieContext, now: i64) -> (c: Cookie)
    ensures
        c@ == spec_cookie("refresh_token"@, ""@, *ctx, now as int),
{
    let c = create_cookie(String::from_str("refresh_token"), String::new(), ctx, now);
    proof {
        reveal_strlit("");
        assert(c@ =~= spec_cookie("refresh_token"@, ""@, *ctx, now as int));
    }
    c
}

impl Cookie {
    /// Renames the cookie, e.g. to a provider-scoped variant such as
    /// `access_token_tda`; every other attribute is kept.
    pub fn set_name(&mut self, name: String)
        ensures
            final(self)@ == (CookieView { name: name@, ..old(self)@ }),
    {
        self.name = name;
    }
}

} // verus!
