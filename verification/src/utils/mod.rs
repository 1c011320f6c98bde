//! Shared helpers.

pub mod decimal;
pub mod error;
