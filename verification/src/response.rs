//! The response shapes that dispatched calls decode into, and the two
//! plain carriers for wire data the library does not interpret: moments
//! in time and arbitrary JSON values.

use vstd::prelude::*;

pub mod errors;
pub mod project;
pub mod v2;

verus! {

/// A moment in time: seconds and nanoseconds since the Unix epoch. The
/// wire form is an RFC 3339 date, which the boundary converts.
#[derive(Debug, Clone, PartialEq, Eq)]
pub struct Timestamp {
    pub epoch_seconds: i64,
    pub nanos: u32,
}

/// An arbitrary JSON value, carried as its unparsed text.
#[derive(Debug, Clone, PartialEq, Eq)]
pub struct RawJson {
    pub text: String,
}

} // verus!
