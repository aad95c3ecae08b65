//! Version 2 project endpoints.

pub mod get;
pub mod head;
