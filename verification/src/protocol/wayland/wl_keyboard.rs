//! `wl_keyboard`: a keyboard input device.

pub mod enums;
pub mod events;

use vstd::prelude::*;

verus! {

/// A keyboard input device.
pub struct WlKeyboard {}

} // verus!
