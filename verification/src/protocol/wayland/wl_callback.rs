//! `wl_callback`: a callback object, fired once.

pub mod events;

use vstd::prelude::*;

verus! {

/// A callback object, fired once.
pub struct WlCallback {}

} // verus!
