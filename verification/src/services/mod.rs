//! Password hashing and access tokens.

pub mod auth;
pub mod backend;
