//! `xdg_positioner`: a child surface positioner.

pub mod enums;

use vstd::prelude::*;

verus! {

/// A child surface positioner.
pub struct XdgPositioner {}

} // verus!
