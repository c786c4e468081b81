//! Fault aggregation and response synthesis for a package-registry API.
//!
//! Failures raised by storage, outside services or validation are classified into an
//! [`errors::ErrorBuilder`], which gathers diagnostic context while the failure unwinds and
//! holds at most one user-facing response. At the request boundary the builder is finalized
//! into either a ready response or an opaque internal error.
use vstd::prelude::*;

pub mod api_types;
pub mod errors;
pub mod github;
pub mod middleware;
pub mod response;

verus! {

/// Used for setting different values depending on whether the app is being run in
/// production, in development, or for testing.
#[derive(PartialEq, Eq, Clone, Copy, Debug, Structural)]
pub enum Env {
    Development,
    Test,
    Production,
}

/// Used for setting different values depending on the type of registry this instance is.
///
/// `Primary` indicates this instance is a primary registry that is the source of truth for
/// these crates' information. `ReadOnlyMirror` indicates this instance is a read-only mirror
/// of crate information that exists on another instance.
#[derive(PartialEq, Eq, Clone, Copy, Debug, Structural)]
pub enum Replica {
    Primary,
    ReadOnlyMirror,
}

} // verus!
