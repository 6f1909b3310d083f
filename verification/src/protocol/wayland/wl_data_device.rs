//! `wl_data_device`: a data transfer device.

use vstd::prelude::*;

verus! {

/// A data transfer device.
pub struct WlDataDevice {}

} // verus!
