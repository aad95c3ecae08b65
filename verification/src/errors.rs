//! The error taxonomy: definition errors (a template placeholder that no
//! field resolves), render errors (a hole in the path or invalid header
//! bytes), build errors (a required field never supplied), and the
//! client-level errors of the dispatcher.

use vstd::prelude::*;

verus! {

/// A fault in an endpoint definition itself, independent of any bound
/// values: such a definition is rejected before anything is rendered.
#[derive(Debug, Clone, PartialEq, Eq)]
pub enum DefinitionError {
    /// A placeholder in the path template that no path-role field matches.
    UnresolvedPlaceholder(String),
    /// A placeholder in the path template that two or more path-role
    /// fields match.
    AmbiguousPlaceholder(String),
}

/// A fault found while rendering one instance: surfaced synchronously,
/// before any request is sent.
#[derive(Debug, Clone, PartialEq, Eq)]
pub enum RenderError {
    /// A path placeholder whose field carries no value; the payload is
    /// the placeholder name.
    MissingPathParameter(String),
    /// A header whose wire name holds bytes that are not valid in a
    /// header name; the payload is the offending field's identifier.
    InvalidHeaderName(String),
    /// A header whose value holds bytes that are not valid in a header
    /// value; the payload is the offending field's identifier.
    InvalidHeaderValue(String),
}

/// A fault found when finalizing a builder: a required field was never
/// supplied.
#[derive(Debug, Clone, PartialEq, Eq)]
pub enum BuildError {
    MissingField(String),
}

} // verus!
