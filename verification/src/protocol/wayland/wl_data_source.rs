//! `wl_data_source`: an offer to transfer data, from the side that has it.

pub mod events;

use vstd::prelude::*;

verus! {

/// The version of the interface that the proxy speaks.
pub const VERSION: u32 = 3;

/// An offer to transfer data, from the side that has it.
pub struct WlDataSource {}

} // verus!
