//! A shader variable as the descriptor sets that stand for it.

use vstd::prelude::*;

verus! {

/// A variable declared in a shader at `layout(set, binding)`, with one
/// descriptor set per frame in flight.
pub struct Variable {
    pub set: u32,
    pub binding: u32,
    pub layout: u64,
    pub descriptors: Vec<u64>,
}

impl Variable {
    /// The descriptor set of `frame`.
    pub fn descriptor(&self, frame: usize) -> (set: u64)
        requires
            frame < self.descriptors@.len(),
        ensures
            set == self.descriptors@[frame as int],
    {
        self.descriptors[frame]
    }
}

/// One descriptor write that binds a range of a buffer to an array element
/// of a binding in a descriptor set.
#[derive(Clone, Copy, Debug, PartialEq, Eq, Structural)]
pub struct BufferWrite {
    pub dst_set: u64,
    pub dst_binding: u32,
    pub dst_array_element: u32,
    pub buffer: u64,
    pub offset: u64,
    pub range: u64,
}

/// One descriptor write that binds an image view and a sampler to an array
/// element of a binding in a descriptor set.
#[derive(Clone, Copy, Debug, PartialEq, Eq, Structural)]
pub struct ImageWrite {
    pub dst_set: u64,
    pub dst_binding: u32,
    pub dst_array_element: u32,
    pub image_view: u64,
    pub sampler: u64,
}

} // verus!
