//! Version 2 configure endpoints.

pub mod get;
