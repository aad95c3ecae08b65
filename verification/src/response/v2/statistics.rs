//! What a statistics request decodes into.

use vstd::prelude::*;

verus! {

/// Counts of projects, repositories and storage, as far as the caller may see them.
#[derive(Debug, Clone, PartialEq, Eq)]
pub struct Statistic {
    /// The count of the private projects.
    pub private_project_count: u64,
    /// The count of the private repositories.
    pub private_repo_count: u64,
    /// The count of the public projects.
    pub public_project_count: u64,
    /// The count of the public repositories.
    pub public_repo_count: u64,
    /// The count of the total projects, only seen by the system admin.
    pub total_project_count: u64,
    /// The count of the total repositories, only seen by the system admin.
    pub total_repo_count: u64,
    /// The total storage consumption of blobs, only seen by the system admin.
    pub total_storage_consumption: u64,
}

} // verus!
