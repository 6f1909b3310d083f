//! `wl_shell`: the desktop-style shell interface.

use vstd::prelude::*;

verus! {

/// The desktop-style shell interface.
pub struct WlShell {}

} // verus!
