//! Context header names for stdio-to-HTTP backend communication.
//!
//! These headers pass caller-side context from a stdio front end to HTTP
//! backend servers, enabling working-directory tracking and repository-root
//! detection. Session identification itself uses the protocol's standard
//! session id header.

use vstd::prelude::*;

verus! {

/// Header carrying the current working directory the front end was spawned
/// from; backends use it for path resolution and as the default working
/// directory for operations.
pub const X_KODEGEN_PWD: &'static str = "x-kodegen-pwd";

/// Header carrying the git repository root directory, for repository-aware
/// operations and path resolution.
pub const X_KODEGEN_GITROOT: &'static str = "x-kodegen-gitroot";

} // verus!
