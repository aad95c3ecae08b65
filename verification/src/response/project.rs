//! What the first version's project requests decode into.

use vstd::prelude::*;
use crate::response::{RawJson, Timestamp};

verus! {

/// One project, as project requests return it.
#[derive(Debug, Clone, PartialEq, Eq)]
pub struct Project {
    /// Project ID.
    pub project_id: u32,
    /// The owner ID of the project always means the creator of the project.
    pub owner_id: u32,
    /// The name of the project.
    pub name: String,
    /// The ID of referenced registry when the project is a proxy cache project.
    pub registry_id: Option<u64>,
    /// The creation time of the project.
    pub creation_time: Timestamp,
    /// The update time of the project.
    pub update_time: Timestamp,
    /// A deletion mark of the project.
    pub deleted: Option<bool>,
    /// The owner name of the project.
    pub owner_name: String,
    /// Whether the project's publicity is updatable (for UI).
    pub togglable: Option<bool>,
    /// The role ID with highest permission of the current user (for UI).
    pub current_user_role_id: Option<u32>,
    /// The list of role IDs of the current user (for UI).
    pub current_user_role_ids: Option<Vec<u32>>,
    /// The number of the repositories under this project.
    pub repo_count: u32,
    /// Project metadata.
    pub metadata: ProjectMetadata,
    /// The CVE allowlist for system or project.
    pub cve_allowlist: CveAllowlist,
}

/// Whether a project can be deleted, and why not.
#[derive(Debug, Clone, PartialEq, Eq)]
pub struct ProjectDeletable {
    /// Whether the project can be deleted.
    pub deletable: bool,
    /// The detail message when the project can not be deleted.
    pub message: String,
}

/// The member, quota and registry summary of a project.
#[derive(Debug, Clone, PartialEq, Eq)]
pub struct ProjectSummary {
    /// The number of the repositories under this project.
    pub repo_count: Option<usize>,
    /// The total number of project admin members.
    pub project_admin_count: Option<usize>,
    /// The total number of maintainer members.
    pub maintainer_count: Option<usize>,
    /// The total number of developer members.
    pub developer_count: Option<usize>,
    /// The total number of guest members.
    pub guest_count: Option<usize>,
    /// The total number of limited guest members.
    pub limited_guest_count: Option<usize>,
    pub quota: Option<ProjectSummaryQuota>,
    pub registry: Option<Registry>,
}

/// One artifact of a project.
#[derive(Debug)]
pub struct Artifact {
    /// The ID of the artifact.
    pub id: i64,
    /// The type of the artifact, e.g. image, chart.
    pub kind: Option<String>,
    /// The media type of the artifact.
    pub media_type: Option<String>,
    /// The manifest media type of the artifact.
    pub manifest_media_type: Option<String>,
    /// The artifact_type in the manifest of the artifact.
    pub artifact_type: Option<String>,
    /// The ID of the project that the artifact belongs to.
    pub project_id: Option<i64>,
    /// The ID of the repository that the artifact belongs to.
    pub repository_id: Option<i64>,
    /// The name of the repository that the artifact belongs to.
    pub repository_name: Option<String>,
    /// The digest of the artifact.
    pub digest: Option<String>,
    /// The size of the artifact.
    pub size: Option<i64>,
    /// The digest of the icon.
    pub icon: Option<String>,
    /// The push time of the artifact.
    pub push_time: Option<Timestamp>,
    /// The latest pull time of the artifact.
    pub pull_time: Option<Timestamp>,
    pub extra_attrs: Option<ExtraAttrs>,
    pub annotations: Option<Annotations>,
    pub references: Option<Vec<Reference>>,
    pub tags: Option<Vec<Tag>>,
    pub addition_links: Option<AdditionLinks>,
    pub labels: Option<Vec<Label>>,
    /// The scan overview attached in the metadata of tag.
    pub scan_overview: Option<ScanOverview>,
    /// The generated SBOM overview information.
    pub sbom_overview: Option<SbomOverview>,
    /// The accessories of the artifact.
    pub accessories: Option<Vec<Artifact>>,
}

/// Project metadata.
#[derive(Debug, Clone, PartialEq, Eq)]
pub struct ProjectMetadata {
    /// The public status of the project, "true" or "false".
    pub public: String,
    /// Whether content trust is enabled, "true" or "false".
    pub enable_content_trust: Option<String>,
    /// Whether cosign content trust is enabled, "true" or "false".
    pub enable_content_trust_cosign: Option<String>,
    /// Whether to prevent vulnerable images from running, "true" or "false".
    pub prevent_vul: Option<String>,
    /// The severity above which images cannot be pulled.
    pub severity: Option<String>,
    /// Whether to scan images automatically when pushing, "true" or "false".
    pub auto_scan: Option<String>,
    /// Whether to generate an SBOM automatically when pushing, "true" or "false".
    pub auto_sbom_generation: Option<String>,
    /// Whether this project reuses the system level CVE allowlist, "true" or "false".
    pub reuse_sys_cve_allowlist: Option<String>,
    /// The ID of the tag retention policy for the project.
    pub retention_id: Option<String>,
    /// The bandwidth limit of proxy cache, in Kbps.
    pub proxy_speed_kb: Option<String>,
}

/// The CVE allowlist for system or project.
#[derive(Debug, Clone, PartialEq, Eq)]
pub struct CveAllowlist {
    /// ID of the allowlist.
    pub id: u32,
    /// ID of the project which the allowlist belongs to; zero for the system level allowlist.
    pub project_id: u32,
    /// The expiry of the allowlist, in seconds since epoch; absent when it does not expire.
    pub expires_at: Option<u32>,
    /// The items in the CVE allowlist.
    pub items: Vec<CveAllowlistItem>,
    /// The creation time of the allowlist.
    pub creation_time: Timestamp,
    /// The update time of the allowlist.
    pub update_time: Timestamp,
}

/// The item in a CVE allowlist.
#[derive(Debug, Clone, PartialEq, Eq)]
pub struct CveAllowlistItem {
    /// The ID of the CVE, such as "CVE-2019-10164".
    pub cve_id: String,
}

/// The quota of a project summary.
#[derive(Debug, Clone, PartialEq, Eq)]
pub struct ProjectSummaryQuota {
    pub hard: Option<ResourceList>,
    pub used: Option<ResourceList>,
}

/// A registry known to the service.
#[derive(Debug, Clone, PartialEq, Eq)]
pub struct Registry {
    /// The registry ID.
    pub id: i64,
    /// The registry URL string.
    pub url: String,
    /// The registry name.
    pub name: String,
    pub credential: RegistryCredential,
    /// Type of the registry, e.g. 'harbor'.
    pub kind: String,
    /// Whether the certificate is left unverified when the server is accessed.
    pub insecure: bool,
    /// Description of the registry.
    pub description: String,
    /// Health status of the registry.
    pub status: String,
    /// The create time of the policy.
    pub creation_time: Timestamp,
    /// The update time of the policy.
    pub update_time: Timestamp,
}

/// The credential of a registry.
#[derive(Debug, Clone, PartialEq, Eq)]
pub struct RegistryCredential {
    /// Credential type, such as 'basic', 'oauth'.
    pub kind: String,
    /// Access key, e.g. user name when credential type is 'basic'.
    pub access_key: String,
    /// Access secret, e.g. password when credential type is 'basic'.
    pub access_secret: String,
}

/// Resource quotas keyed by resource name.
pub type ResourceList = Vec<(String, i64)>;

/// Extra attributes of an artifact, keyed by attribute name.
pub type ExtraAttrs = Vec<(String, RawJson)>;

/// Annotations keyed by annotation name.
pub type Annotations = Vec<(String, String)>;

/// Addition links keyed by addition name.
pub type AdditionLinks = Vec<(String, AdditionLink)>;

/// The scan overview attached in the metadata of tag, keyed by MIME
/// type.
pub type ScanOverview = Vec<(String, NativeReportSummary)>;

/// Vulnerability counts keyed by severity.
pub type Summary = Vec<(String, usize)>;

/// A link to an addition of an artifact.
#[derive(Debug, Clone, PartialEq, Eq)]
pub struct AdditionLink {
    /// The link of the addition.
    pub href: String,
    /// Whether the link is an absolute URL.
    pub absolute: bool,
}

/// A reference from an index artifact to a child.
#[derive(Debug, Clone, PartialEq, Eq)]
pub struct Reference {
    /// The parent ID of the reference.
    pub parent_id: Option<i64>,
    /// The child ID of the reference.
    pub child_id: Option<i64>,
    /// The digest of the child artifact.
    pub child_digest: Option<String>,
    pub platform: Option<Platform>,
    pub annotations: Option<Annotations>,
    /// The download URLs.
    pub urls: Option<Vec<String>>,
}

/// The platform an artifact applies to.
#[derive(Debug, Clone, PartialEq, Eq)]
pub struct Platform {
    /// The architecture that the artifact applies to.
    pub architecture: String,
    /// The OS that the artifact applies to.
    pub os: String,
    /// The version of the OS that the artifact applies to.
    pub os_version: Option<String>,
    /// The features of the OS that the artifact applies to.
    pub os_features: Option<Vec<String>>,
    /// The variant of the CPU.
    pub variant: Option<String>,
}

/// A tag on an artifact.
#[derive(Debug, Clone, PartialEq, Eq)]
pub struct Tag {
    /// The ID of the tag.
    pub id: i64,
    /// The ID of the repository that the tag belongs to.
    pub repository_id: i64,
    /// The ID of the artifact that the tag is attached to.
    pub artifact_id: i64,
    /// The name of the tag.
    pub name: String,
    /// The push time of the tag.
    pub push_time: Timestamp,
    /// The latest pull time of the tag.
    pub pull_time: Timestamp,
    /// The immutable status of the tag.
    pub immutable: bool,
}

/// A label on an artifact.
#[derive(Debug, Clone, PartialEq, Eq)]
pub struct Label {
    /// The ID of the label.
    pub id: i64,
    /// The name of the label.
    pub name: Option<String>,
    /// The description of the label.
    pub description: Option<String>,
    /// The color of the label.
    pub color: Option<String>,
    /// The scope of the label.
    pub scope: Option<String>,
    /// The ID of the project that the label belongs to.
    pub project_id: Option<i64>,
    /// The creation time of the label.
    pub creation_time: Option<Timestamp>,
    /// The update time of the label.
    pub update_time: Option<Timestamp>,
}

/// A summary of a native scan report.
#[derive(Debug, Clone, PartialEq, Eq)]
pub struct NativeReportSummary {
    /// ID of the native scan report.
    pub report_id: Option<String>,
    /// The status of the report generating process.
    pub scan_status: Option<String>,
    /// The overall severity.
    pub severity: Option<String>,
    /// The seconds spent for generating the report.
    pub duration: Option<i64>,
    /// The number of found vulnerabilities, total and per severity.
    pub summary: Option<VulnerabilitySummary>,
    /// The start time of the scan process.
    pub start_time: Option<Timestamp>,
    /// The end time of the scan process.
    pub end_time: Option<Timestamp>,
    /// The completed percent of the scan, between 0 and 100.
    pub complete_percent: Option<usize>,
    pub scanner: Option<Scanner>,
}

/// The number of found vulnerabilities, total and per severity.
#[derive(Debug, Clone, PartialEq, Eq)]
pub struct VulnerabilitySummary {
    /// The total number of the found vulnerabilities.
    pub total: Option<usize>,
    /// The number of the fixable vulnerabilities.
    pub fixable: Option<usize>,
    /// Numbers of the vulnerabilities per severity.
    pub summary: Option<Summary>,
}

/// The scanner that produced a report.
#[derive(Debug, Clone, PartialEq, Eq)]
pub struct Scanner {
    /// Name of the scanner.
    pub name: Option<String>,
    /// Name of the scanner provider.
    pub vendor: Option<String>,
    /// Version of the scanner adapter.
    pub version: Option<String>,
}

/// The generated SBOM overview information.
#[derive(Debug, Clone, PartialEq, Eq)]
pub struct SbomOverview {
    /// The start time of the SBOM generation task.
    pub start_time: Option<Timestamp>,
    /// The end time of the SBOM generation task.
    pub end_time: Option<Timestamp>,
    /// The status of the SBOM generation task.
    pub scan_status: Option<String>,
    /// The digest of the generated SBOM accessory.
    pub sbom_digest: Option<String>,
    /// ID of the native scan report.
    pub report_id: Option<String>,
    /// Time in seconds required to create the report.
    pub duration: Option<i64>,
    pub scanner: Option<Scanner>,
}

/// The accessory of the artifact.
#[derive(Debug, Clone, PartialEq, Eq)]
pub struct Accessory {
    /// The ID of the accessory.
    pub id: i64,
    /// The artifact id of the accessory.
    pub artifact_id: i64,
    /// The subject artifact id of the accessory.
    pub subject_artifact_id: Option<i64>,
    /// The subject artifact digest of the accessory.
    pub subject_artifact_digest: Option<String>,
    /// The subject artifact repository name of the accessory.
    pub subject_artifact_repo: Option<String>,
    /// The artifact size of the accessory.
    pub size: Option<i64>,
    /// The artifact digest of the accessory.
    pub digest: Option<String>,
    /// The type of the accessory.
    pub kind: Option<String>,
    /// The icon of the accessory.
    pub icon: Option<String>,
    /// The creation time of the accessory.
    pub creation_time: Option<Timestamp>,
}

} // verus!
