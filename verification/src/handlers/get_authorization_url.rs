//! Authorization-URL endpoint: hands the deterministic upstream
//! authorization URL to the client; no network call, always a 200.
use vstd::prelude::*;

use crate::tda_client::TDAmeritradeClient;
use crate::tda_client::spec_authorization_url;

verus! {

/// Body of the authorization-URL response.
#[derive(Debug)]
pub struct GetAuthorizationUrlResponse {
    pub authorization_url: String,
}

/// Builds the endpoint's response: a 200 carrying exactly the client's
/// authorization URL.
pub fn get_authorization_url(client: &TDAmeritradeClient) -> (r: (u16, GetAuthorizationUrlResponse))
    ensures
        r.0 == 200u16,
        r.1.authorization_url@ == spec_authorization_url(client.api_key@, client.callback_url@),
{
    let authorization_url = client.get_authorization_url();
    (200, GetAuthorizationUrlResponse { authorization_url })
}

} // verus!
