//! The system health status.

use vstd::prelude::*;

verus! {

/// The overall health status: "healthy" only when every component is.
#[derive(Debug, Clone, PartialEq, Eq)]
pub struct OverallHealthStatus {
    /// The overall health status.
    pub status: String,
    /// The health status of the components.
    pub components: Vec<ComponentHealthStatus>,
}

/// The health status of one component, "healthy" or "unhealthy".
#[derive(Debug, Clone, PartialEq, Eq)]
pub struct ComponentHealthStatus {
    /// The component name.
    pub name: String,
    /// The health status of the component.
    pub status: String,
    /// The error message when the status is unhealthy.
    pub error: Option<String>,
}

} // verus!
