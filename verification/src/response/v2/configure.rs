//! What a configuration request decodes into.

use vstd::prelude::*;
use crate::response::RawJson;

verus! {

/// The system configurations, keyed by configuration name.
pub type InternalConfigurationsResponse = Vec<(String, InternalConfigurationValue)>;

/// One configuration item.
#[derive(Debug, Clone, PartialEq, Eq)]
pub struct InternalConfigurationValue {
    /// The value of the current config item.
    pub value: RawJson,
    /// Whether the configure item can be updated.
    pub editable: bool,
}

} // verus!
