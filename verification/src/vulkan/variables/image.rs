//! One descriptor set per texture, made on first use.

use crate::textures::texture::Texture;
use crate::vulkan::descriptors::{single_binding, DescriptorSetBinding, COMBINED_IMAGE_SAMPLER, STAGE_FRAGMENT};
use crate::vulkan::variables::variable::ImageWrite;
use std::collections::HashMap;
use vstd::prelude::*;

verus! {

/// What `describe` answers: the descriptor set of the texture, and the
/// descriptor write that a newly made set owes the device.
#[derive(Clone, Copy, Debug)]
pub struct Described {
    pub set: u64,
    pub write: Option<ImageWrite>,
}

/// Keeps one descriptor set for each texture, by the texture's image
/// handle.
pub struct ImageSampler {
    pool: u64,
    layout: u64,
    sets: HashMap<u64, u64>,
}

impl View for ImageSampler {
    type V = Map<u64, u64>;

    closed spec fn view(&self) -> Map<u64, u64> {
        self.sets@
    }
}

impl ImageSampler {
    /// The handle of the descriptor pool.
    pub closed spec fn spec_pool(&self) -> u64 {
        self.pool
    }

    /// The handle of the descriptor set layout.
    pub closed spec fn set_layout(&self) -> u64 {
        self.layout
    }

    /// The bindings that the pool and the set layout are made from: `count`
    /// images with their samplers at binding zero, seen by the fragment
    /// stage.
    pub fn bindings(count: usize) -> (bindings: Vec<DescriptorSetBinding>)
        ensures
            bindings@ == seq![
                DescriptorSetBinding {
                    binding: 0,
                    descriptor_type: COMBINED_IMAGE_SAMPLER,
                    stages: STAGE_FRAGMENT,
                    count,
                },
            ],
    {
        single_binding(0, COMBINED_IMAGE_SAMPLER, STAGE_FRAGMENT, count)
    }

    /// No texture described yet, over a pool and a set layout that the
    /// device made.
    pub fn create(pool: u64, layout: u64) -> (sampler: ImageSampler)
        ensures
            sampler@ == Map::<u64, u64>::empty(),
            sampler.spec_pool() == pool,
            sampler.set_layout() == layout,
    {
        ImageSampler { pool, layout, sets: HashMap::new() }
    }

    /// The handle of the descriptor pool.
    pub fn pool(&self) -> (pool: u64)
        ensures
            pool == self.spec_pool(),
    {
        self.pool
    }

    /// The handle of the descriptor set layout.
    pub fn layout(&self) -> (layout: u64)
        ensures
            layout == self.set_layout(),
    {
        self.layout
    }

    /// The descriptor set of `texture`. A texture that has none gets the set
    /// that `make` makes, and the write that binds the texture's view and
    /// `sampler` to it is handed back; `make` is not called for a texture
    /// that has a set.
    pub fn describe<F>(&mut self, texture: Texture, sampler: u64, make: F) -> (described: Described) where
        F: FnOnce() -> u64,

        requires
            make.requires(()),
        ensures
            old(self)@.contains_key(texture.image) ==> final(self)@ == old(self)@ && described == (Described {
                set: old(self)@[texture.image],
                write: None,
            }),
            !old(self)@.contains_key(texture.image) ==> make.ensures((), described.set) && final(self)@
                == old(self)@.insert(texture.image, described.set) && described.write == Some(
                ImageWrite {
                    dst_set: described.set,
                    dst_binding: 0,
                    dst_array_element: 0,
                    image_view: texture.view,
                    sampler,
                },
            ),
            final(self).spec_pool() == old(self).spec_pool(),
            final(self).set_layout() == old(self).set_layout(),
    {
        broadcast use vstd::std_specs::hash::group_hash_axioms;

        let known: Option<u64> = match self.sets.get(&texture.image) {
            Some(set) => Some(*set),
            None => None,
        };
        match known {
            Some(set) => Described { set, write: None },
            None => {
                let set: u64 = make();
                self.sets.insert(texture.image, set);
                Described {
                    set,
                    write: Some(
                        ImageWrite {
                            dst_set: set,
                            dst_binding: 0,
                            dst_array_element: 0,
                            image_view: texture.view,
                            sampler,
                        },
                    ),
                }
            },
        }
    }

    /// The descriptor writes that bind `textures`, each with `sampler`, to
    /// the array elements of binding zero of `set`, in order.
    pub fn write_many(set: u64, sampler: u64, textures: &Vec<Texture>) -> (writes: Vec<ImageWrite>)
        ensures
            writes@.len() == textures@.len(),
            forall|i: int|
                0 <= i < textures@.len() ==> #[trigger] writes@[i] == (ImageWrite {
                    dst_set: set,
                    dst_binding: 0,
                    dst_array_element: i as u32,
                    image_view: textures@[i].view,
                    sampler,
                }),
    {
        let mut writes: Vec<ImageWrite> = Vec::new();
        let mut index: usize = 0;
        while index < textures.len()
            invariant
                index <= textures@.len(),
                writes@.len() == index,
                forall|i: int|
                    0 <= i < index ==> #[trigger] writes@[i] == (ImageWrite {
                        dst_set: set,
                        dst_binding: 0,
                        dst_array_element: i as u32,
                        image_view: textures@[i].view,
                        sampler,
                    }),
            decreases textures@.len() - index,
        {
            writes.push(
                ImageWrite {
                    dst_set: set,
                    dst_binding: 0,
                    dst_array_element: #[verifier::truncate]
                    (index as u32),
                    image_view: textures[index].view,
                    sampler,
                },
            );
            index = index + 1;
        }
        writes
    }
}

} // verus!
