//! Upstream OAuth client: builds the brokerage authorization URL, the
//! form-encoded bodies of the two token-exchange calls, and interprets the
//! token endpoint's response. The HTTP POST itself is performed by the
//! unverified shell through the resilient transport.
use vstd::prelude::*;

pub mod accounts;

use crate::transport::TransportError;

verus! {

/// The upstream token envelope: ephemeral, never persisted, folded into
/// provider-scoped cookies within the request that obtained it. A populated
/// `error` field is the upstream's error envelope.
#[derive(Debug)]
pub struct TokenResponse {
    pub access_token: Option<String>,
    pub token_type: Option<String>,
    pub expires_in: Option<u64>,
    pub refresh_token: Option<String>,
    pub scope: Option<String>,
    pub error: Option<String>,
}

impl TokenResponse {
    /// The all-absent envelope handed out when no upstream token exists.
    pub fn empty() -> (t: TokenResponse)
        ensures
            t.access_token is None,
            t.token_type is None,
            t.expires_in is None,
            t.refresh_token is None,
            t.scope is None,
            t.error is None,
    {
        TokenResponse {
            access_token: None,
            token_type: None,
            expires_in: None,
            refresh_token: None,
            scope: None,
            error: None,
        }
    }
}

impl Default for TokenResponse {
    fn default() -> (t: TokenResponse)
        ensures
            t.access_token is None,
            t.token_type is None,
            t.expires_in is None,
            t.refresh_token is None,
            t.scope is None,
            t.error is None,
    {
        TokenResponse::empty()
    }
}

/// Client configuration for the brokerage's OAuth endpoints, resolved once
/// at startup.
pub struct TDAmeritradeClient {
    pub base_url: String,
    pub api_key: String,
    pub callback_url: String,
}

/// The percent-encoding that form-urlencoding applies to a string's UTF-8
/// bytes: a function of the string alone. Relied upon through `url_encode`.
pub uninterp spec fn spec_url_encoded(s: Seq<char>) -> Seq<char>;

/// Relies on url's `form_urlencoded::byte_serialize`: deterministic in the
/// input bytes, so in the input string.
#[verifier::external_body]
fn url_encode(s: &str) -> (r: String)
    ensures
        r@ == spec_url_encoded(s@),
{
    url::form_urlencoded::byte_serialize(s.as_bytes()).collect::<String>()
}

/// The byte-exact authorization URL the upstream expects: fixed base and
/// scope, percent-encoded callback, raw client id with the fixed
/// `@AMER.OAUTHAP` suffix.
pub open spec fn spec_authorization_url(api_key: Seq<char>, callback_url: Seq<char>) -> Seq<char> {
    "https://auth.tdameritrade.com/auth?response_type=code&redirect_uri="@ + spec_url_encoded(
        callback_url,
    ) + "&client_id="@ + api_key + "%40AMER.OAUTHAP&scope=AccountAccess"@
}

impl TDAmeritradeClient {
    /// Builds the client against the fixed production API base; the key and
    /// the callback come from configuration.
    pub fn new(api_key: String, callback_url: String) -> (c: TDAmeritradeClient)
        ensures
            c.base_url@ == "https://api.tdameritrade.com/v1"@,
            c.api_key@ == api_key@,
            c.callback_url@ == callback_url@,
    {
        TDAmeritradeClient {
            base_url: String::from_str("https://api.tdameritrade.com/v1"),
            api_key,
            callback_url,
        }
    }

    /// Deterministic authorization URL for the configured client; no network
    /// call is involved.
    pub fn get_authorization_url(&self) -> (r: String)
        ensures
            r@ == spec_authorization_url(self.api_key@, self.callback_url@),
    {
        let mut url = String::from_str(
            "https://auth.tdameritrade.com/auth?response_type=code&redirect_uri=",
        );
        let encoded = url_encode(self.callback_url.as_str());
        url.append(encoded.as_str());
        url.append("&client_id=");
        url.append(self.api_key.as_str());
        url.append("%40AMER.OAUTHAP&scope=AccountAccess");
        proof {
            assert(url@ =~= spec_authorization_url(self.api_key@, self.callback_url@));
        }
        url
    }

    /// The token endpoint every exchange posts to.
    pub fn token_endpoint(&self) -> (r: String)
        ensures
            r@ == self.base_url@ + "/oauth2/token"@,
    {
        let mut url = self.base_url.clone();
        url.append("/oauth2/token");
        url
    }

    /// Form body for trading a one-time authorization code for tokens.
    pub fn authorization_code_exchange_params(&self, code: &str) -> (params: Vec<(String, String)>)
        ensures
            params@.len() == 5,
            params@[0].0@ == "grant_type"@ && params@[0].1@ == "authorization_code"@,
            params@[1].0@ == "access_type"@ && params@[1].1@ == "offline"@,
            params@[2].0@ == "code"@ && params@[2].1@ == code@,
            params@[3].0@ == "client_id"@ && params@[3].1@ == self.api_key@,
            params@[4].0@ == "redirect_uri"@ && params@[4].1@ == self.callback_url@,
    {
        let mut params: Vec<(String, String)> = Vec::new();
        params.push((String::from_str("grant_type"), String::from_str("authorization_code")));
        params.push((String::from_str("access_type"), String::from_str("offline")));
        params.push((String::from_str("code"), String::from_str(code)));
        params.push((String::from_str("client_id"), self.api_key.clone()));
        params.push((String::from_str("redirect_uri"), self.callback_url.clone()));
        params
    }

    /// Form body for redeeming an upstream refresh token.
    pub fn refresh_token_exchange_params(&self, refresh_token: &str) -> (params: Vec<
        (String, String),
    >)
        ensures
            params@.len() == 3,
            params@[0].0@ == "grant_type"@ && params@[0].1@ == "refresh_token"@,
            params@[1].0@ == "refresh_token"@ && params@[1].1@ == refresh_token@,
            params@[2].0@ == "client_id"@ && params@[2].1@ == self.api_key@,
    {
        let mut params: Vec<(String, String)> = Vec::new();
        params.push((String::from_str("grant_type"), String::from_str("refresh_token")));
        params.push((String::from_str("refresh_token"), String::from_str(refresh_token)));
        params.push((String::from_str("client_id"), self.api_key.clone()));
        params
    }
}

/// Interprets what came back from a token exchange: `status` is the
/// response status, `body` the parsed envelope if the body parsed at all. A
/// success status with a clean envelope yields the token; the upstream's
/// error envelope and every non-success, non-server-error status are
/// definitive rejections (authorization codes are single-use, so retrying
/// cannot help); a success status without a parsable body is malformed; and
/// server-side trouble is transient.
pub fn interpret_exchange_response(status: u16, body: Option<TokenResponse>) -> (r: Result<
    TokenResponse,
    TransportError,
>)
    ensures
        r is Ok <==> (200 <= status < 300 && (body matches Some(t) && t.error is None)),
        r matches Ok(t) ==> body == Some(t),
        r == Err::<TokenResponse, TransportError>(TransportError::Malformed) <==> (200 <= status
            < 300 && body is None),
        r == Err::<TokenResponse, TransportError>(TransportError::Rejected) <==> ((300 <= status
            < 500) || (200 <= status < 300 && (body matches Some(t) && t.error is Some))),
        r == Err::<TokenResponse, TransportError>(TransportError::Transient) <==> (status < 200
            || status >= 500),
{
    if 200 <= status && status < 300 {
        match body {
            Some(t) => {
                if t.error.is_some() {
                    Err(TransportError::Rejected)
                } else {
                    Ok(t)
                }
            },
            None => Err(TransportError::Malformed),
        }
    } else if 300 <= status && status < 500 {
        Err(TransportError::Rejected)
    } else {
        Err(TransportError::Transient)
    }
}

} // verus!
