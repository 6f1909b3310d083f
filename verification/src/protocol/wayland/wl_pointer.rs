//! `wl_pointer`: a pointer input device.

pub mod enums;
pub mod events;

use vstd::prelude::*;

verus! {

/// A pointer input device.
pub struct WlPointer {}

} // verus!
