//! `wl_subcompositor`: sub-surface compositing.

use vstd::prelude::*;

verus! {

/// Sub-surface compositing.
pub struct WlSubcompositor {}

} // verus!
