//! A declarative request-description library for typed HTTP API clients.
//!
//! An endpoint is described by a path template with `{name}` placeholders
//! and a list of field descriptors; each field is classified as a path
//! placeholder, a header, or a query parameter, and the library renders
//! the request URL and header set from those descriptions. A thin
//! dispatcher layer decides what a response means from its status code
//! and body text.

pub mod client;
pub mod encode;
pub mod errors;
pub mod fields;
pub mod headers;
pub mod laws;
pub mod render;
pub mod request;
pub mod response;
pub mod template;
pub mod text;
