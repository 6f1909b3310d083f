//! `wl_display`: the core global object, a singleton used for internal protocol features.

pub mod enums;
pub mod events;

use vstd::prelude::*;

verus! {

/// The name under which the registry announces this global.
pub const GLOBAL_SINGLETON_NAME: u32 = 6;

/// The version of the interface that the proxy speaks.
pub const VERSION: u32 = 1;

/// The core global object, a singleton used for internal protocol features.
pub struct WlDisplay {}

} // verus!
