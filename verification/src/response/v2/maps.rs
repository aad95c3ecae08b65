//! Map-shaped response data, carried as ordered key/value lists.

use vstd::prelude::*;
use crate::response::RawJson;
use crate::response::v2::project::types::{AdditionLink, NativeReportSummary};

verus! {

/// Resource quotas keyed by resource name.
pub type ResourceList = Vec<(String, i64)>;

/// Extra attributes of an artifact, keyed by attribute name.
pub type ExtraAttrs = Vec<(String, RawJson)>;

/// Annotations keyed by annotation name.
pub type Annotations = Vec<(String, String)>;

/// Addition links keyed by addition name.
pub type AdditionLinks = Vec<(String, AdditionLink)>;

/// The scan overview attached in the metadata of tag, keyed by MIME
/// type.
pub type ScanOverview = Vec<(String, NativeReportSummary)>;

/// Vulnerability counts keyed by severity.
pub type Summary = Vec<(String, usize)>;

} // verus!
