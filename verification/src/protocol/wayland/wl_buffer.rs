//! `wl_buffer`: the content of a surface.

use vstd::prelude::*;

verus! {

/// The content of a surface.
pub struct WlBuffer {
    /// Buffer byte offset within the pool.
    pub offset: i32,
    /// Buffer width, in pixels.
    pub width: i32,
    /// Buffer height, in pixels.
    pub height: i32,
    /// Number of bytes from the beginning of one row to the beginning of the next row.
    pub stride: i32,
    /// Buffer pixel format.
    pub format: u32,
}

} // verus!
