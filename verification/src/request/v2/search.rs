//! Version 2 search endpoints.

pub mod get;
