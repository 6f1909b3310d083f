//! `xdg_wm_base`: the xdg shell singleton: it creates desktop-style surfaces.

pub mod enums;
pub mod events;

use vstd::prelude::*;

verus! {

/// The name under which the registry announces this global.
pub const GLOBAL_SINGLETON_NAME: u32 = 4;

/// The version of the interface that the proxy speaks.
pub const VERSION: u32 = 2;

/// The xdg shell singleton: it creates desktop-style surfaces.
pub struct XdgWmBase {}

} // verus!
