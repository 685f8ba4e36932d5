//! First-party session tokens: minting, validation and rotation of the
//! HMAC-signed claims carried in the `access_token` and `refresh_token`
//! cookies, plus the authenticated-route gate decision.
//!
//! The caller supplies the current instant (`now`, unix seconds), so every
//! function here is a deterministic, fully specified function of its inputs.
use vstd::prelude::*;

verus! {

/// Lifetime in seconds of a freshly minted access token.
pub const ACCESS_TOKEN_TTL: i64 = 3600;

/// Lifetime in seconds of a freshly minted refresh token.
pub const REFRESH_TOKEN_TTL: i64 = 604800;

/// Largest instant at which tokens can still be minted without the expiry
/// computation overflowing.
pub const MAX_TOKEN_INSTANT: i64 = 9223372036854775807 - 604800;

/// Claims carried by a first-party session token: the token kind in `sub`
/// (`"access_token"` or `"refresh_token"`), issue and expiry instants.
#[derive(Debug)]
pub struct TokenClaims {
    pub sub: String,
    pub iat: i64,
    pub exp: i64,
}

/// Why a token was refused. Every variant is surfaced to clients as the same
/// `401`, so the cause of a refusal never leaks.
#[derive(Clone, Copy, Debug, PartialEq, Eq, Structural)]
pub enum AuthError {
    /// Bad signature, expired claim or malformed structure.
    Invalid,
    /// A structurally valid token of the wrong kind was offered for rotation.
    WrongSubject,
}

/// The token string that signing claims `(sub, iat, exp)` with `secret`
/// produces. Relied upon through `encode_claims` below; stated nowhere else.
pub uninterp spec fn spec_jwt_token(sub: Seq<char>, iat: int, exp: int, secret: Seq<char>) -> Seq<
    char,
>;

/// The claims that decoding a token against `secret` yields, or `None` when
/// the signature or the structure is rejected. Expiry plays no part here, so
/// this is a function of the token and the secret alone. Relied upon through
/// `encode_claims` and `decode_claims` below.
pub uninterp spec fn spec_jwt_payload(token: Seq<char>, secret: Seq<char>) -> Option<
    (Seq<char>, int, int),
>;

/// Relies on jsonwebtoken::encode with the default HS256 header: the token is
/// a deterministic function of the claims and the secret, is never empty (it
/// always has three dot-separated parts), and decoding it with the same
/// secret yields the same claims back. Serializing three plain fields cannot
/// fail, so the unwrap never fires.
#[verifier::external_body]
fn encode_claims(claims: &TokenClaims, secret: &str) -> (r: String)
    ensures
        r@ == spec_jwt_token(claims.sub@, claims.iat as int, claims.exp as int, secret@),
        spec_jwt_payload(r@, secret@) == Some((claims.sub@, claims.iat as int, claims.exp as int)),
        r@.len() > 0,
{
    let mut m = serde_json::Map::new();
    m.insert("sub".to_string(), serde_json::Value::String(claims.sub.clone()));
    m.insert("iat".to_string(), serde_json::Value::from(claims.iat));
    m.insert("exp".to_string(), serde_json::Value::from(claims.exp));
    let key = jsonwebtoken::EncodingKey::from_secret(secret.as_bytes());
    jsonwebtoken::encode(&jsonwebtoken::Header::default(), &serde_json::Value::Object(m), &key)
        .unwrap()
}

/// Relies on jsonwebtoken::decode with expiry checking and required-claim
/// checking turned off: whether the signature and structure are accepted,
/// and which claims come back, depend on the token and the secret alone
/// (jsonwebtoken's required-claim reader would otherwise refuse an `exp`
/// outside the unsigned range). The presence of the three claims is checked
/// by this wrapper's own field reads, and expiry by the verified callers.
#[verifier::external_body]
fn decode_claims(token: &str, secret: &str) -> (r: Option<TokenClaims>)
    ensures
        r matches Some(c) ==> spec_jwt_payload(token@, secret@) == Some(
            (c.sub@, c.iat as int, c.exp as int),
        ),
        r is None ==> spec_jwt_payload(token@, secret@) is None,
{
    let key = jsonwebtoken::DecodingKey::from_secret(secret.as_bytes());
    let mut validation = jsonwebtoken::Validation::default();
    validation.validate_exp = false;
    validation.required_spec_claims.clear();
    let v = jsonwebtoken::decode::<serde_json::Value>(token, &key, &validation).ok()?.claims;
    let sub = v.get("sub")?.as_str()?.to_string();
    let iat = v.get("iat")?.as_i64()?;
    let exp = v.get("exp")?.as_i64()?;
    Some(TokenClaims { sub, iat, exp })
}

/// A token is accepted at instant `now` when it decodes against `secret` and
/// its expiry lies strictly in the future.
pub open spec fn spec_token_accepted(token: Seq<char>, secret: Seq<char>, now: int) -> bool {
    spec_jwt_payload(token, secret) matches Some(p) && p.2 > now
}

/// Rotation accepts exactly the tokens that are accepted at `now` and carry
/// the refresh subject.
pub open spec fn spec_rotation_accepted(token: Seq<char>, secret: Seq<char>, now: int) -> bool {
    spec_jwt_payload(token, secret) matches Some(p) && p.2 > now && p.0 == "refresh_token"@
}

/// Verifies signature and expiry of `token` against `secret` at instant
/// `now`. Bad signature, expired claim and malformed structure all collapse
/// into the single `AuthError::Invalid` outcome.
pub fn validate_token(token: &str, secret: &str, now: i64) -> (r: Result<TokenClaims, AuthError>)
    ensures
        r is Ok <==> spec_token_accepted(token@, secret@, now as int),
        r matches Ok(c) ==> spec_jwt_payload(token@, secret@) == Some(
            (c.sub@, c.iat as int, c.exp as int),
        ) && c.exp > now,
        r matches Err(e) ==> e == AuthError::Invalid,
{
    match decode_claims(token, secret) {
        Some(c) => {
            if c.exp > now {
                Ok(c)
            } else {
                Err(AuthError::Invalid)
            }
        },
        None => Err(AuthError::Invalid),
    }
}

/// Mints the access-token claims issued at `now` and signs them with
/// `secret`: `sub = "access_token"`, `exp = now + 1h`.
pub fn create_access_token(secret: &str, now: i64) -> (t: String)
    requires
        now <= MAX_TOKEN_INSTANT,
    ensures
        t@ == spec_jwt_token("access_token"@, now as int, now + ACCESS_TOKEN_TTL, secret@),
        spec_jwt_payload(t@, secret@) == Some(
            ("access_token"@, now as int, (now + ACCESS_TOKEN_TTL) as int),
        ),
        t@.len() > 0,
{
    let claims = TokenClaims {
        sub: String::from_str("access_token"),
        iat: now,
        exp: now + ACCESS_TOKEN_TTL,
    };
    encode_claims(&claims, secret)
}

/// Mints the refresh-token claims issued at `now` and signs them with
/// `secret`: `sub = "refresh_token"`, `exp = now + 7d`.
pub fn create_refresh_token(secret: &str, now: i64) -> (t: String)
    requires
        now <= MAX_TOKEN_INSTANT,
    ensures
        t@ == spec_jwt_token("refresh_token"@, now as int, now + REFRESH_TOKEN_TTL, secret@),
        spec_jwt_payload(t@, secret@) == Some(
            ("refresh_token"@, now as int, (now + REFRESH_TOKEN_TTL) as int),
        ),
        t@.len() > 0,
{
    let claims = TokenClaims {
        sub: String::from_str("refresh_token"),
        iat: now,
        exp: now + REFRESH_TOKEN_TTL,
    };
    encode_claims(&claims, secret)
}

/// Redeems a refresh token: validates it, requires the refresh subject, and
/// mints a replacement issued at `now`. An access token offered here is
/// rejected with `WrongSubject`, never rotated.
pub fn exchange_refresh_token(refresh_token: &str, secret: &str, now: i64) -> (r: Result<
    String,
    AuthError,
>)
    requires
        now <= MAX_TOKEN_INSTANT,
    ensures
        r is Ok <==> spec_rotation_accepted(refresh_token@, secret@, now as int),
        r matches Ok(t) ==> t@ == spec_jwt_token(
            "refresh_token"@,
            now as int,
            now + REFRESH_TOKEN_TTL,
            secret@,
        ) && spec_jwt_payload(t@, secret@) == Some(
            ("refresh_token"@, now as int, (now + REFRESH_TOKEN_TTL) as int),
        ),
        r == Err::<String, AuthError>(AuthError::WrongSubject) <==> (spec_token_accepted(
            refresh_token@,
            secret@,
            now as int,
        ) && !spec_rotation_accepted(refresh_token@, secret@, now as int)),
        r == Err::<String, AuthError>(AuthError::Invalid) <==> !spec_token_accepted(
            refresh_token@,
            secret@,
            now as int,
        ),
{
    match validate_token(refresh_token, secret, now) {
        Ok(claims) => {
            let refresh_sub = String::from_str("refresh_token");
            if claims.sub == refresh_sub {
                Ok(create_refresh_token(secret, now))
            } else {
                Err(AuthError::WrongSubject)
            }
        },
        Err(_) => Err(AuthError::Invalid),
    }
}

/// Client-visible status for a refused token. Every `AuthError` maps to the
/// same `401`, so internal failure causes are indistinguishable outside.
pub fn auth_error_status(e: AuthError) -> (code: u16)
    ensures
        code == 401u16,
{
    match e {
        AuthError::Invalid => 401,
        AuthError::WrongSubject => 401,
    }
}

/// The token a `Bearer` authorization header carries, if it is one.
pub open spec fn spec_bearer_token(h: Seq<char>) -> Option<Seq<char>> {
    if h.len() >= 7 && h.subrange(0, 7) == "Bearer "@ {
        Some(h.skip(7))
    } else {
        None
    }
}

/// View of an optional borrowed string.
pub open spec fn spec_opt_view(o: Option<&String>) -> Option<Seq<char>> {
    match o {
        Some(s) => Some(s@),
        None => None,
    }
}

/// Where an authenticated route takes its token from: the session cookie
/// when present, else a well-formed `Bearer` authorization header, else
/// nowhere.
pub open spec fn spec_get_token(
    cookie_value: Option<Seq<char>>,
    authorization_header: Option<Seq<char>>,
) -> Option<Seq<char>> {
    match cookie_value {
        Some(v) => Some(v),
        None => match authorization_header {
            Some(h) => spec_bearer_token(h),
            None => None,
        },
    }
}

fn bearer_token(header: &String) -> (r: Option<String>)
    ensures
        r matches Some(t) ==> spec_bearer_token(header@) == Some(t@),
        r is None ==> spec_bearer_token(header@) is None,
{
    let s = header.as_str();
    let n = s.unicode_len();
    if n < 7 {
        return None;
    }
    if s.get_char(0) == 'B' && s.get_char(1) == 'e' && s.get_char(2) == 'a' && s.get_char(3) == 'r'
        && s.get_char(4) == 'e' && s.get_char(5) == 'r' && s.get_char(6) == ' ' {
        proof {
            reveal_strlit("Bearer ");
            assert(s@.subrange(0, 7) =~= "Bearer "@);
        }
        let t = String::from_str(s.substring_char(7, n));
        proof {
            assert(t@ =~= header@.skip(7));
        }
        Some(t)
    } else {
        proof {
            reveal_strlit("Bearer ");
            if s@.subrange(0, 7) == "Bearer "@ {
                assert(s@.subrange(0, 7)[0] == s@[0]);
                assert(s@.subrange(0, 7)[1] == s@[1]);
                assert(s@.subrange(0, 7)[2] == s@[2]);
                assert(s@.subrange(0, 7)[3] == s@[3]);
                assert(s@.subrange(0, 7)[4] == s@[4]);
                assert(s@.subrange(0, 7)[5] == s@[5]);
                assert(s@.subrange(0, 7)[6] == s@[6]);
                assert(false);
            }
        }
        None
    }
}

/// Extracts the session token offered by a request: the cookie's value takes
/// precedence; failing that, the token after a `Bearer ` prefix in the
/// authorization header.
pub fn get_token(cookie_value: Option<&String>, authorization_header: Option<&String>) -> (r:
    Option<String>)
    ensures
        r matches Some(t) ==> spec_get_token(
            spec_opt_view(cookie_value),
            spec_opt_view(authorization_header),
        ) == Some(t@),
        r is None ==> spec_get_token(
            spec_opt_view(cookie_value),
            spec_opt_view(authorization_header),
        ) is None,
{
    match cookie_value {
        Some(v) => Some(v.clone()),
        None => match authorization_header {
            Some(h) => bearer_token(h),
            None => None,
        },
    }
}

/// The authenticated-route gate: a request passes exactly when it offers,
/// in a cookie or a bearer header, a token that is accepted at `now` under
/// the access secret. Everything else is refused with a 401 before the
/// guarded handler runs.
pub fn auth(
    cookie_value: Option<&String>,
    authorization_header: Option<&String>,
    secret: &str,
    now: i64,
) -> (r: Result<TokenClaims, u16>)
    ensures
        ({
            let offered = spec_get_token(
                spec_opt_view(cookie_value),
                spec_opt_view(authorization_header),
            );
            &&& (r is Ok <==> (offered matches Some(t) && spec_token_accepted(
                t,
                secret@,
                now as int,
            )))
            &&& (r matches Ok(c) ==> (offered matches Some(t) && spec_jwt_payload(t, secret@)
                == Some((c.sub@, c.iat as int, c.exp as int)) && c.exp > now))
            &&& (r matches Err(code) ==> code == 401u16)
        }),
{
    let token = match get_token(cookie_value, authorization_header) {
        Some(t) => t,
        None => {
            return Err(401);
        },
    };
    match validate_token(token.as_str(), secret, now) {
        Ok(claims) => Ok(claims),
        Err(_) => Err(401),
    }
}

/// Rotating a refresh claim that was minted with the standard lifetime and is
/// still valid strictly extends its expiry: rotation is accepted, and the
/// replacement minted at `now` expires later than the old claim did.
pub proof fn lemma_rotation_extends_expiry(
    token: Seq<char>,
    secret: Seq<char>,
    iat: int,
    exp: int,
    now: int,
)
    requires
        spec_jwt_payload(token, secret) == Some(("refresh_token"@, iat, exp)),
        exp == iat + REFRESH_TOKEN_TTL,
        iat < now < exp,
    ensures
        spec_rotation_accepted(token, secret, now),
        now + REFRESH_TOKEN_TTL > exp,
{
}

/// A token carrying the access subject is never accepted for rotation,
/// whatever its expiry: `exchange_refresh_token` can only refuse it.
pub proof fn lemma_rotation_rejects_access_claims(
    token: Seq<char>,
    secret: Seq<char>,
    iat: int,
    exp: int,
    now: int,
)
    requires
        spec_jwt_payload(token, secret) == Some(("access_token"@, iat, exp)),
    ensures
        !spec_rotation_accepted(token, secret, now),
{
    reveal_strlit("access_token");
    reveal_strlit("refresh_token");
    assert("access_token"@.len() == 12);
    assert("refresh_token"@.len() == 13);
}

} // verus!
