//! Bot-verification middleware: the verdict drawn from the verification
//! service's response to a turnstile challenge. The HTTP call itself goes
//! through the resilient transport in the unverified shell; only the parsed
//! response (or the fact that none was obtained) is judged here.
use vstd::prelude::*;

verus! {

/// Success envelope of the verification service.
#[derive(Clone, Debug, PartialEq)]
pub struct SiteVerifyResponseSuccess {
    pub success: bool,
    pub challenge_ts: String,
    pub hostname: String,
    pub error_codes: Vec<String>,
    pub action: String,
    pub cdata: String,
}

/// Error envelope of the verification service.
#[derive(Clone, Debug, PartialEq)]
pub struct SiteVerifyResponseError {
    pub success: bool,
    pub error_codes: Vec<String>,
}

/// Either envelope the verification service answers with.
#[derive(Clone, Debug, PartialEq)]
pub enum SiteVerifyResponse {
    Success(SiteVerifyResponseSuccess),
    Error(SiteVerifyResponseError),
}

/// Judges a challenge response: it passes exactly when a response was
/// obtained, parsed as the success envelope, and affirms success. A failed
/// send, an unreadable body, an unparsable body and an error envelope all
/// fail closed.
pub fn verify_cf_response(parsed: Option<SiteVerifyResponse>) -> (ok: bool)
    ensures
        ok <==> (parsed matches Some(r) && (r matches SiteVerifyResponse::Success(s)
            && s.success)),
{
    match parsed {
        Some(SiteVerifyResponse::Success(s)) => s.success,
        Some(SiteVerifyResponse::Error(_)) => false,
        None => false,
    }
}

} // verus!
