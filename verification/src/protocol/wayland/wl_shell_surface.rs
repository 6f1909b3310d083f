//! `wl_shell_surface`: a desktop-style surface.

pub mod enums;
pub mod events;

use vstd::prelude::*;

verus! {

/// A desktop-style surface.
pub struct WlShellSurface {}

} // verus!
