//! What a search request decodes into.

use vstd::prelude::*;
use crate::response::v2::project::Project;

verus! {

/// Search results: the matching projects and repositories, in display order.
#[derive(Debug, Clone, PartialEq, Eq)]
pub struct Search {
    /// Search results of the projects that matched the filter keywords.
    pub project: Option<Vec<Project>>,
    /// Search results of the repositories that matched the filter keywords.
    pub repository: Option<Vec<SearchRepository>>,
}

/// One repository found by a search.
#[derive(Debug, Clone, PartialEq, Eq)]
pub struct SearchRepository {
    /// The ID of the project that the repository belongs to.
    pub project_id: u32,
    /// The name of the project that the repository belongs to.
    pub project_name: String,
    /// Whether the project that the repository belongs to is public.
    pub project_public: bool,
    /// The name of the repository.
    pub repository_name: String,
    /// The count how many times the repository is pulled.
    pub pull_count: u32,
    /// The count of artifacts in the repository.
    pub artifact_count: u32,
}

} // verus!
