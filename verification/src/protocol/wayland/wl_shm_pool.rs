//! `wl_shm_pool`: a shared memory pool from which buffers are created.

use vstd::prelude::*;

verus! {

/// A shared memory pool from which buffers are created.
pub struct WlShmPool {}

} // verus!
