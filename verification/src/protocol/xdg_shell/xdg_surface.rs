//! `xdg_surface`: a desktop user interface surface base.

pub mod enums;
pub mod events;

use vstd::prelude::*;

verus! {

/// The version of the interface that the proxy speaks.
pub const VERSION: u32 = 2;

/// A desktop user interface surface base.
pub struct XdgSurface {}

} // verus!
