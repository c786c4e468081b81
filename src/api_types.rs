//! Values sent to API clients.
use vstd::prelude::*;

verus! {

/// Links from a version to its related resources.
pub struct VersionLinks {
    pub dependencies: String,
    pub version_downloads: String,
    pub authors: String,
}

} // verus!
