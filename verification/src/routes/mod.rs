//! The decisions behind the routes.

pub mod user;
