//! `wl_data_offer`: an offer to transfer data.

use vstd::prelude::*;

verus! {

/// An offer to transfer data.
pub struct WlDataOffer {}

} // verus!
