//! What a dispatched call can fail with.

use vstd::prelude::*;
use crate::errors::RenderError;

verus! {

/// The failure of one dispatched call, from configuration to decoding.
#[derive(Debug, Clone, PartialEq, Eq)]
pub enum ClientError {
    /// The response body did not parse into the expected shape; the
    /// payload describes the parse failure.
    Deserialize(String),
    /// A required configuration value was missing or invalid; the
    /// payload names it.
    Environment(String),
    /// The transport could not be built or could not carry the request;
    /// the payload describes the fault.
    Reqwest(String),
    /// The request's headers could not be rendered.
    Header(RenderError),
    /// A response with a non-success status, its body kept as
    /// diagnostics.
    Response { status: u16, message: String },
}

} // verus!
