//! Version 2 response shapes.

pub mod configure;
pub mod health;
pub mod maps;
pub mod project;
pub mod search;
pub mod statistics;
