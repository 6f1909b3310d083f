//! `wl_shm`: shared memory support: a singleton that creates pools.

pub mod enums;
pub mod events;

use vstd::prelude::*;

verus! {

/// The name under which the registry announces this global.
pub const GLOBAL_SINGLETON_NAME: u32 = 3;

/// The version of the interface that the proxy speaks.
pub const VERSION: u32 = 1;

/// Shared memory support: a singleton that creates pools.
pub struct WlShm {}

} // verus!
