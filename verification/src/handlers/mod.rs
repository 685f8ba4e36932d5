//! Per-endpoint orchestration: the request-scoped decision logic of each
//! auth flow, stated as pure functions over the outcomes of the external
//! steps (store lookups, upstream exchanges) that the unverified shell
//! performs.
pub mod accounts;
pub mod callback;
pub mod get_authorization_url;
pub mod refresh_token;
pub mod sign_in;
pub mod sign_out;
pub mod sign_up;
pub mod tda_refresh;
