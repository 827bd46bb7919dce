//! What descriptor pools and set layouts are made from.

use vstd::prelude::*;

verus! {

/// The descriptor type of an image with its sampler.
pub const COMBINED_IMAGE_SAMPLER: i32 = 1;

/// The descriptor type of a uniform buffer.
pub const UNIFORM_BUFFER: i32 = 6;

/// The descriptor type of a storage buffer.
pub const STORAGE_BUFFER: i32 = 7;

/// The vertex shader stage.
pub const STAGE_VERTEX: u32 = 0x1;

/// The fragment shader stage.
pub const STAGE_FRAGMENT: u32 = 0x10;

/// Every shader stage.
pub const STAGE_ALL: u32 = 0x7FFF_FFFF;

/// One binding of a descriptor set: its number, what it binds, the stages
/// that see it, and how many array elements it has.
#[derive(Clone, Copy, Debug, PartialEq, Eq, Structural)]
pub struct DescriptorSetBinding {
    pub binding: u32,
    pub descriptor_type: i32,
    pub stages: u32,
    pub count: usize,
}

/// How many descriptors of one type a pool holds.
#[derive(Clone, Copy, Debug, PartialEq, Eq, Structural)]
pub struct PoolSize {
    pub descriptor_type: i32,
    pub descriptor_count: u32,
}

/// What a descriptor pool is made from.
#[derive(Debug)]
pub struct DescriptorPoolPlan {
    pub pool_sizes: Vec<PoolSize>,
    pub max_sets: u32,
}

/// One binding as a set layout declares it.
#[derive(Clone, Copy, Debug, PartialEq, Eq, Structural)]
pub struct LayoutBinding {
    pub binding: u32,
    pub descriptor_type: i32,
    pub descriptor_count: u32,
    pub stage_flags: u32,
}

/// A pool for `sets` descriptor sets of the given bindings: for each
/// binding, room for as many descriptors as it has array elements, in each
/// set. Counts are handed on as 32-bit numbers, cut to their low bits where
/// they are greater.
pub fn create_descriptor_pool(bindings: &Vec<DescriptorSetBinding>, sets: usize) -> (plan: DescriptorPoolPlan)
    requires
        forall|i: int| 0 <= i < bindings@.len() ==> (#[trigger] bindings@[i]).count * sets <= usize::MAX,
    ensures
        plan.max_sets == sets as u32,
        plan.pool_sizes@.len() == bindings@.len(),
        forall|i: int|
            0 <= i < bindings@.len() ==> #[trigger] plan.pool_sizes@[i] == (PoolSize {
                descriptor_type: bindings@[i].descriptor_type,
                descriptor_count: (bindings@[i].count * sets) as u32,
            }),
{
    let mut pool_sizes: Vec<PoolSize> = Vec::new();
    let mut index: usize = 0;
    while index < bindings.len()
        invariant
            index <= bindings@.len(),
            forall|i: int| 0 <= i < bindings@.len() ==> (#[trigger] bindings@[i]).count * sets <= usize::MAX,
            pool_sizes@.len() == index,
            forall|i: int|
                0 <= i < index ==> #[trigger] pool_sizes@[i] == (PoolSize {
                    descriptor_type: bindings@[i].descriptor_type,
                    descriptor_count: (bindings@[i].count * sets) as u32,
                }),
        decreases bindings@.len() - index,
    {
        let binding = bindings[index];
        assert(bindings@[index as int].count * sets <= usize::MAX);
        let count: usize = binding.count * sets;
        pool_sizes.push(
            PoolSize {
                descriptor_type: binding.descriptor_type,
                descriptor_count: #[verifier::truncate]
                (count as u32),
            },
        );
        index = index + 1;
    }
    DescriptorPoolPlan {
        pool_sizes,
        max_sets: #[verifier::truncate]
        (sets as u32),
    }
}

/// The bindings of a set layout, in the order given. Counts are handed on
/// as 32-bit numbers, cut to their low bits where they are greater.
pub fn create_descriptor_set_layout(bindings: &Vec<DescriptorSetBinding>) -> (layout: Vec<LayoutBinding>)
    ensures
        layout@.len() == bindings@.len(),
        forall|i: int|
            0 <= i < bindings@.len() ==> #[trigger] layout@[i] == (LayoutBinding {
                binding: bindings@[i].binding,
                descriptor_type: bindings@[i].descriptor_type,
                descriptor_count: bindings@[i].count as u32,
                stage_flags: bindings@[i].stages,
            }),
{
    let mut layout: Vec<LayoutBinding> = Vec::new();
    let mut index: usize = 0;
    while index < bindings.len()
        invariant
            index <= bindings@.len(),
            layout@.len() == index,
            forall|i: int|
                0 <= i < index ==> #[trigger] layout@[i] == (LayoutBinding {
                    binding: bindings@[i].binding,
                    descriptor_type: bindings@[i].descriptor_type,
                    descriptor_count: bindings@[i].count as u32,
                    stage_flags: bindings@[i].stages,
                }),
        decreases bindings@.len() - index,
    {
        let binding = bindings[index];
        layout.push(
            LayoutBinding {
                binding: binding.binding,
                descriptor_type: binding.descriptor_type,
                descriptor_count: #[verifier::truncate]
                (binding.count as u32),
                stage_flags: binding.stages,
            },
        );
        index = index + 1;
    }
    layout
}

/// The one binding of a variable that is a single buffer or image.
pub fn single_binding(binding: u32, descriptor_type: i32, stages: u32, count: usize) -> (bindings: Vec<
    DescriptorSetBinding,
>)
    ensures
        bindings@ == seq![DescriptorSetBinding { binding, descriptor_type, stages, count }],
{
    let mut bindings: Vec<DescriptorSetBinding> = Vec::new();
    bindings.push(DescriptorSetBinding { binding, descriptor_type, stages, count });
    assert(bindings@ =~= seq![DescriptorSetBinding { binding, descriptor_type, stages, count }]);
    bindings
}

} // verus!
