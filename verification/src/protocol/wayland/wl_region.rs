//! `wl_region`: a region of a surface.

use vstd::prelude::*;

verus! {

/// A region of a surface.
pub struct WlRegion {}

} // verus!
