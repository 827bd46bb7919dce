//! The texture table of a canvas: a bindless table at binding zero.

use crate::textures::texture::Texture;
use crate::vulkan::variables::textures::{Slot, Stored, Table, TableFull, Textures, MAX_DESCRIPTORS};
use crate::vulkan::variables::variable::ImageWrite;
use vstd::prelude::*;

verus! {

/// A bindless texture table declared at binding zero of its own set.
pub struct Sampler2D {
    table: Textures,
}

impl View for Sampler2D {
    type V = Table;

    closed spec fn view(&self) -> Table {
        self.table@
    }
}

impl Sampler2D {
    /// The handle of the descriptor set that holds the array.
    pub closed spec fn set(&self) -> u64 {
        self.table.set()
    }

    /// The handle of the descriptor set layout.
    pub closed spec fn set_layout(&self) -> u64 {
        self.table.set_layout()
    }

    /// The table behind it is well formed.
    pub closed spec fn wf(&self) -> bool {
        self.table.wf() && self.table.binding() == 0
    }

    /// An empty table of `MAX_DESCRIPTORS` slots over a descriptor set and
    /// its layout that the device made.
    pub fn create(layout: u64, set: u64) -> (sampler: Sampler2D)
        ensures
            sampler.wf(),
            sampler@ == Table::empty(MAX_DESCRIPTORS as nat),
            sampler.set_layout() == layout,
            sampler.set() == set,
    {
        Sampler2D { table: Textures::create(0, 0, layout, set) }
    }

    /// The handle of the descriptor set layout.
    pub fn layout(&self) -> (layout: u64)
        ensures
            layout == self.set_layout(),
    {
        self.table.layout()
    }

    /// The handle of the descriptor set that holds the array.
    pub fn descriptor(&self) -> (set: u64)
        ensures
            set == self.set(),
    {
        self.table.descriptor()
    }

    /// The slot of `texture`, by its image handle: a new slot and the
    /// descriptor write it owes on the first store, the same slot and no
    /// write ever after, and a refusal that changes nothing where a new
    /// texture finds the table full.
    pub fn store(&mut self, texture: Texture, sampler: u64) -> (stored: Result<Stored, TableFull>)
        requires
            old(self).wf(),
        ensures
            final(self).wf(),
            final(self)@ == old(self)@.store(texture).0,
            final(self).set() == old(self).set(),
            final(self).set_layout() == old(self).set_layout(),
            match old(self)@.store(texture).1 {
                Slot::Known(index) => stored == Ok::<Stored, TableFull>(
                    Stored { index: index as u32, write: None },
                ),
                Slot::Fresh(index) => stored == Ok::<Stored, TableFull>(
                    Stored {
                        index: index as u32,
                        write: Some(
                            ImageWrite {
                                dst_set: old(self).set(),
                                dst_binding: 0,
                                dst_array_element: index as u32,
                                image_view: texture.view,
                                sampler,
                            },
                        ),
                    },
                ),
                Slot::Rejected => stored == Err::<Stored, TableFull>(
                    TableFull { capacity: old(self)@.capacity as u32 },
                ),
            },
    {
        self.table.store(texture, sampler)
    }
}

} // verus!
