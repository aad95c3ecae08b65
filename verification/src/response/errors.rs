//! The error body that failed calls carry.

use vstd::prelude::*;

verus! {

/// The error array of a failed call.
#[derive(Debug, Clone, PartialEq, Eq)]
pub struct ErrorReponse {
    /// The errors of the call.
    pub errors: Vec<HarborError>,
}

/// One error of a failed call.
#[derive(Debug, Clone, PartialEq, Eq)]
pub struct HarborError {
    /// A machine readable error code.
    pub code: String,
    /// A human readable message.
    pub message: String,
}

} // verus!
