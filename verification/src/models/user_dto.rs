//! The bodies of requests and responses.

use vstd::prelude::*;

verus! {

/// The body of a request to register.
#[derive(Debug, Clone, PartialEq, Eq)]
pub struct RegisterUser {
    pub username: String,
    pub email: String,
    pub password: String,
}

/// The body of a request to log in.
#[derive(Debug, Clone, PartialEq, Eq)]
pub struct LoginUser {
    pub username: String,
    pub password: String,
}

/// The body of the answer to a login that succeeded.
#[derive(Debug, Clone, PartialEq, Eq)]
pub struct AuthResponse {
    pub token: String,
}

/// The body of the answer to a registration that succeeded: the new
/// identity, without its hash.
#[derive(Debug, Clone, PartialEq, Eq)]
pub struct UserResponse {
    pub id: i32,
    pub username: String,
    pub email: String,
}

} // verus!
