//! A uniform: one value of a type, duplicated for each frame in flight.

use crate::vulkan::buffer::MemoryBuffer;
use crate::vulkan::descriptors::{single_binding, DescriptorSetBinding, STAGE_VERTEX, UNIFORM_BUFFER};
use crate::vulkan::variables::variable::BufferWrite;
use core::marker::PhantomData;
use vstd::prelude::*;

verus! {

/// A shader variable declared with the uniform qualifier at
/// `layout(set = slot, binding = binding)`: one buffer that holds a `T` and
/// one descriptor set per frame in flight.
pub struct Uniform<T> {
    slot: u32,
    binding: u32,
    layout: u64,
    sets: Vec<u64>,
    buffers: Vec<MemoryBuffer>,
    _phantom: PhantomData<T>,
}

impl<T> Uniform<T> {
    /// The descriptor set number of the declaration.
    pub closed spec fn spec_slot(&self) -> u32 {
        self.slot
    }

    /// The binding number of the declaration.
    pub closed spec fn spec_binding(&self) -> u32 {
        self.binding
    }

    /// The handle of the descriptor set layout.
    pub closed spec fn set_layout(&self) -> u64 {
        self.layout
    }

    /// The descriptor sets, one per frame in flight.
    pub closed spec fn sets(&self) -> Seq<u64> {
        self.sets@
    }

    /// The buffers, one per frame in flight.
    pub closed spec fn buffers(&self) -> Seq<MemoryBuffer> {
        self.buffers@
    }

    /// There are as many buffers as descriptor sets.
    pub open spec fn wf(&self) -> bool {
        self.sets().len() == self.buffers().len()
    }

    /// The bindings that the uniform's pool and set layout are made from:
    /// one uniform buffer, seen by the vertex stage.
    pub fn bindings(binding: u32) -> (bindings: Vec<DescriptorSetBinding>)
        ensures
            bindings@ == seq![
                DescriptorSetBinding {
                    binding,
                    descriptor_type: UNIFORM_BUFFER,
                    stages: STAGE_VERTEX,
                    count: 1,
                },
            ],
    {
        single_binding(binding, UNIFORM_BUFFER, STAGE_VERTEX, 1)
    }

    /// A uniform over the descriptor sets and buffers that the device made,
    /// one of each per frame in flight.
    pub fn create(slot: u32, binding: u32, layout: u64, sets: Vec<u64>, buffers: Vec<MemoryBuffer>) -> (uniform:
        Uniform<T>)
        requires
            sets@.len() == buffers@.len(),
        ensures
            uniform.wf(),
            uniform.slot() == slot,
            uniform.binding() == binding,
            uniform.set_layout() == layout,
            uniform.sets() == sets@,
            uniform.buffers() == buffers@,
    {
        Uniform { slot, binding, layout, sets, buffers, _phantom: PhantomData }
    }

    /// The descriptor set number of the declaration.
    #[verifier::when_used_as_spec(spec_slot)]
    pub fn slot(&self) -> (slot: u32)
        ensures
            slot == self.spec_slot(),
    {
        self.slot
    }

    /// The binding number of the declaration.
    #[verifier::when_used_as_spec(spec_binding)]
    pub fn binding(&self) -> (binding: u32)
        ensures
            binding == self.spec_binding(),
    {
        self.binding
    }

    /// The handle of the descriptor set layout.
    pub fn layout(&self) -> (layout: u64)
        ensures
            layout == self.set_layout(),
    {
        self.layout
    }

    /// Number of frames in flight that the uniform was created for.
    pub fn frames(&self) -> (count: usize)
        ensures
            count == self.sets().len(),
    {
        self.sets.len()
    }

    /// The descriptor set of `frame`.
    pub fn descriptor(&self, frame: usize) -> (set: u64)
        requires
            frame < self.sets().len(),
        ensures
            set == self.sets()[frame as int],
    {
        self.sets[frame]
    }

    /// The buffer of `frame`, which an update of that frame writes to.
    pub fn buffer(&self, frame: usize) -> (buffer: MemoryBuffer)
        requires
            frame < self.buffers().len(),
        ensures
            buffer == self.buffers()[frame as int],
    {
        self.buffers[frame]
    }

    /// The descriptor write that binds the buffer of `frame` to the
    /// descriptor set of `frame`: the whole value, array element zero.
    pub fn write(&self, frame: usize) -> (write: BufferWrite)
        requires
            self.wf(),
            frame < self.sets().len(),
        ensures
            write == (BufferWrite {
                dst_set: self.sets()[frame as int],
                dst_binding: self.binding(),
                dst_array_element: 0,
                buffer: self.buffers()[frame as int].handle,
                offset: 0,
                range: vstd::layout::size_of::<T>() as u64,
            }),
    {
        BufferWrite {
            dst_set: self.sets[frame],
            dst_binding: self.binding,
            dst_array_element: 0,
            buffer: self.buffers[frame].handle,
            offset: 0,
            range: core::mem::size_of::<T>() as u64,
        }
    }
}

} // verus!
