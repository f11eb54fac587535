//! The services: tokens, passwords, users.

pub mod encryption;
pub mod jwt;
pub mod users;
