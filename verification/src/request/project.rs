//! Project endpoints.

pub mod get;
