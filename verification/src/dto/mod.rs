//! The values that cross the service's boundary.

pub mod error;
pub mod user;
