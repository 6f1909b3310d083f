//! `wl_output`: a compositor output region.

pub mod enums;
pub mod events;

use vstd::prelude::*;

verus! {

/// A compositor output region.
pub struct WlOutput {}

} // verus!
