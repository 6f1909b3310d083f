//! `wl_seat`: a group of input devices.

pub mod events;

use vstd::prelude::*;

verus! {

/// A group of input devices.
pub struct WlSeat {}

} // verus!
