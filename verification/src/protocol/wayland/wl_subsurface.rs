//! `wl_subsurface`: a sub-surface interface to a surface.

use vstd::prelude::*;

verus! {

/// A sub-surface interface to a surface.
pub struct WlSubsurface {}

} // verus!
