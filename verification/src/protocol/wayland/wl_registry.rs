//! `wl_registry`: the registry of global objects.

pub mod events;

use vstd::prelude::*;

verus! {

/// The name under which the registry announces this global.
pub const GLOBAL_SINGLETON_NAME: u32 = 5;

/// The version of the interface that the proxy speaks.
pub const VERSION: u32 = 1;

/// The registry of global objects.
pub struct WlRegistry {}

} // verus!
