//! Token issuance, verification and revocation for an HTTP service, the
//! password hashing that guards its login flow, and the admission rules that
//! gate authenticated routes.

pub mod calendar;
pub mod claims;
pub mod clock;
pub mod config;
pub mod dto;
pub mod errors;
pub mod helpers;
pub mod middlewares;
pub mod revocation;
pub mod services;
pub mod signing;
pub mod text;
pub mod validation;
