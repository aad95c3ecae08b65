//! Version 2 health endpoints.

pub mod get;
