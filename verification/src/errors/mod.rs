//! The errors of the service, each with the status it is answered with and
//! the severity it is logged at.

pub mod auth;
pub mod common;
pub mod user;

use vstd::prelude::*;

verus! {

/// How loudly an error is logged.
#[derive(Clone, Copy, Debug, PartialEq, Eq, Structural)]
pub enum Severity {
    Warning,
    Error,
}

/// Bad request.
pub const BAD_REQUEST: u16 = 400;

/// Unauthorized.
pub const UNAUTHORIZED: u16 = 401;

/// Forbidden.
pub const FORBIDDEN: u16 = 403;

/// Not found.
pub const NOT_FOUND: u16 = 404;

/// Conflict.
pub const CONFLICT: u16 = 409;

/// Internal server error.
pub const INTERNAL_SERVER_ERROR: u16 = 500;

} // verus!
