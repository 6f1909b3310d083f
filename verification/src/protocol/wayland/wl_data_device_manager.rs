//! `wl_data_device_manager`: the data device factory.

pub mod enums;

use vstd::prelude::*;

verus! {

/// The name under which the registry announces this global.
pub const GLOBAL_SINGLETON_NAME: u32 = 2;

/// The version of the interface that the proxy speaks.
pub const VERSION: u32 = 3;

/// The data device factory.
pub struct WlDataDeviceManager {}

} // verus!
