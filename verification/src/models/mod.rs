//! The records that are stored and the messages that are exchanged.

pub mod user;
pub mod user_dto;
