//! Helpers for the boundary to the web framework.

pub mod with_rejection;
