//! `xdg_popup`: a short-lived, popup surface.

pub mod enums;
pub mod events;

use vstd::prelude::*;

verus! {

/// A short-lived, popup surface.
pub struct XdgPopup {}

} // verus!
