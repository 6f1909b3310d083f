//! `wl_touch`: a touchscreen input device.

pub mod events;

use vstd::prelude::*;

verus! {

/// A touchscreen input device.
pub struct WlTouch {}

} // verus!
