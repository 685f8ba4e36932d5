//! Rows handed to the credential store. The store itself is an external
//! collaborator; the verified logic only prepares what it persists.
use vstd::prelude::*;

verus! {

/// A user row to insert: the unique email.
#[derive(Debug)]
pub struct CreateUser {
    pub email: String,
}

/// A credential row to insert: the salted password hash.
#[derive(Debug)]
pub struct CreateUserAuth {
    pub password_hash: String,
}

} // verus!
