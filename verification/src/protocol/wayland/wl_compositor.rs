//! `wl_compositor`: the compositor singleton: it creates surfaces and regions.

use vstd::prelude::*;

verus! {

/// The name under which the registry announces this global.
pub const GLOBAL_SINGLETON_NAME: u32 = 1;

/// The version of the interface that the proxy speaks.
pub const VERSION: u32 = 4;

/// The compositor singleton: it creates surfaces and regions.
pub struct WlCompositor {}

} // verus!
