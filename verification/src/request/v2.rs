//! Version 2 endpoints.

pub mod configure;
pub mod health;
pub mod project;
pub mod search;
pub mod statistics;
