//! The error codes the host answers with.

use vstd::prelude::*;

verus! {

/// The parameters of a request are not what the method takes.
pub const INVALID_PARAMS: i32 = -32602;

/// The host's API version is not one the plugin works with.
pub const UNSUPPORTED_API_VERSION: i32 = -32001;

/// The plugin asked for something its manifest does not allow.
pub const UNAUTHORIZED: i32 = -32002;

/// The plugin is not ready, or the host could not do what was asked.
pub const PLUGIN_UNAVAILABLE: i32 = -32003;

} // verus!
