//! `xdg_toplevel`: a toplevel window.

pub mod events;

use vstd::prelude::*;

verus! {

/// The version of the interface that the proxy speaks.
pub const VERSION: u32 = 2;

/// A toplevel window.
pub struct XdgToplevel {}

} // verus!
