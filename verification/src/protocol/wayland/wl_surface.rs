//! `wl_surface`: an onscreen surface.

pub mod events;

use vstd::prelude::*;

verus! {

/// The version of the interface that the proxy speaks.
pub const VERSION: u32 = 4;

/// An onscreen surface.
pub struct WlSurface {}

} // verus!
