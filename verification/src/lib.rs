//! Credential authentication: password hashing and checking, signed
//! time-limited access tokens, and the decisions of the register and login
//! flows. Storage and transport stay with the caller, who hands in plain
//! values and gets plain values back.

pub mod config;
pub mod models;
pub mod routes;
pub mod services;
pub mod utils;
