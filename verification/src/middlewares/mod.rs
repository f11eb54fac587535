//! What stands between a request and its handler.

pub mod user_auth;
