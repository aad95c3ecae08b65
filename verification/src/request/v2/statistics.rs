//! Version 2 statistics endpoints.

pub mod get;
