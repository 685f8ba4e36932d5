//! Authentication gateway core: token minting and validation, password
//! hashing, session-cookie policy, resilient-transport retry decisions, and
//! the per-endpoint orchestration logic, all with verified contracts.
use vstd::prelude::*;

pub mod cloudflare;
pub mod cookie;
pub mod database_client;
pub mod firebase_client;
pub mod handlers;
pub mod jwt;
pub mod password;
pub mod server;
pub mod tda_client;
pub mod transport;

verus! {

/// Signing secrets for the two first-party token kinds, loaded once at
/// process start and treated as immutable configuration.
pub struct Env {
    pub jwt_access_token_secret: String,
    pub jwt_refresh_token_secret: String,
}

impl Env {
    pub fn new(jwt_access_token_secret: String, jwt_refresh_token_secret: String) -> (r: Env)
        ensures
            r.jwt_access_token_secret@ == jwt_access_token_secret@,
            r.jwt_refresh_token_secret@ == jwt_refresh_token_secret@,
    {
        Env { jwt_access_token_secret, jwt_refresh_token_secret }
    }
}

} // verus!
