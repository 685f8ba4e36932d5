//! Account and order retrieval sit behind the authenticated-route gate; the
//! only decision made here is whether the provider access-token cookie is
//! present before the upstream read is attempted.
use vstd::prelude::*;

verus! {

/// Path parameter of the order-retrieval endpoint.
pub struct GetOrdersPath {
    pub account_id: String,
}

/// Requires the provider access token before an upstream read: without the
/// cookie the request is refused with a 401 and no upstream call is made.
pub fn require_access_token(cookie_value: Option<&String>) -> (r: Result<String, u16>)
    ensures
        r is Ok <==> cookie_value is Some,
        r matches Ok(t) ==> (cookie_value matches Some(c) && t@ == c@),
        r matches Err(code) ==> code == 401u16,
{
    match cookie_value {
        Some(c) => Ok(c.clone()),
        None => Err(401),
    }
}

} // verus!
