//! Device buffers as the pair of handles that identifies them.

use vstd::prelude::*;

verus! {

/// A device buffer and the memory bound to it, both as raw 64-bit handles.
#[derive(Clone, Copy, Debug, PartialEq, Eq, Structural)]
pub struct MemoryBuffer {
    pub handle: u64,
    pub memory: u64,
}

} // verus!
