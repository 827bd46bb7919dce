//! The bindless texture table: one descriptor array, one slot per texture.

use crate::lookup::{first_index, lemma_first_index};
use crate::textures::texture::Texture;
use crate::vulkan::descriptors::{single_binding, DescriptorSetBinding, COMBINED_IMAGE_SAMPLER, STAGE_ALL};
use crate::vulkan::variables::variable::ImageWrite;
use vstd::prelude::*;

verus! {

/// Number of array elements that a texture table is created with.
pub const MAX_DESCRIPTORS: u32 = 256;

/// What `store` answers on success.
#[derive(Clone, Copy, Debug)]
pub struct Stored {
    /// The slot of the texture in the descriptor array.
    pub index: u32,
    /// The descriptor write that the first store of a texture owes the device.
    pub write: Option<ImageWrite>,
}

/// Every slot of the table is taken and the texture is not among them.
#[derive(Clone, Copy, Debug, PartialEq, Eq, Structural)]
pub struct TableFull {
    /// Number of slots of the table.
    pub capacity: u32,
}

/// The image handles of `entries`, in order.
pub open spec fn images_of(entries: Seq<Texture>) -> Seq<u64> {
    entries.map_values(|texture: Texture| texture.image)
}

/// Index of the first texture in `entries` with the image handle `image`.
pub open spec fn position(entries: Seq<Texture>, image: u64) -> Option<int> {
    first_index(images_of(entries), image)
}

/// True when no two entries share an image handle.
pub open spec fn distinct_images(entries: Seq<Texture>) -> bool {
    forall|i: int, j: int|
        0 <= i < j < entries.len() ==> (#[trigger] entries[i]).image != (#[trigger] entries[j]).image
}

/// The table as a value: the textures in slot order, and the slot count.
pub ghost struct Table {
    pub entries: Seq<Texture>,
    pub capacity: nat,
}

/// The outcome of a store on the table as a value.
pub ghost enum Slot {
    /// The texture was there already, at this index.
    Known(int),
    /// The texture took a new slot, this one.
    Fresh(int),
    /// No slot was left for it.
    Rejected,
}

impl Table {
    /// No slot is taken twice and none beyond the capacity.
    pub open spec fn wf(self) -> bool {
        &&& self.entries.len() <= self.capacity
        &&& self.capacity <= u32::MAX
        &&& distinct_images(self.entries)
    }

    /// A table of `capacity` free slots.
    pub open spec fn empty(capacity: nat) -> Self {
        Table { entries: Seq::empty(), capacity }
    }

    /// Table and outcome after one store: a texture whose image is known
    /// keeps its slot, a new one takes the first free slot, and a new one
    /// that finds no free slot changes nothing.
    pub open spec fn store(self, texture: Texture) -> (Self, Slot) {
        match position(self.entries, texture.image) {
            Some(index) => (self, Slot::Known(index)),
            None => if self.entries.len() < self.capacity {
                (
                    Table { entries: self.entries.push(texture), capacity: self.capacity },
                    Slot::Fresh(self.entries.len() as int),
                )
            } else {
                (self, Slot::Rejected)
            },
        }
    }

    /// Table after storing `textures` one by one.
    pub open spec fn store_all(self, textures: Seq<Texture>) -> Self
        decreases textures.len(),
    {
        if textures.len() == 0 {
            self
        } else {
            self.store_all(textures.drop_last()).store(textures.last()).0
        }
    }
}

/// A position, where there is one, is the least index with that image.
pub proof fn lemma_position(entries: Seq<Texture>, image: u64)
    ensures
        match position(entries, image) {
            Some(index) => {
                &&& 0 <= index < entries.len()
                &&& entries[index].image == image
                &&& forall|j: int| 0 <= j < index ==> (#[trigger] entries[j]).image != image
            },
            None => forall|j: int| 0 <= j < entries.len() ==> (#[trigger] entries[j]).image != image,
        },
{
    lemma_first_index(images_of(entries), image);
    assert forall|j: int| 0 <= j < entries.len() implies images_of(entries)[j]
        == (#[trigger] entries[j]).image by {}
}

/// An index with the image and none before it is the position.
pub proof fn lemma_position_is(entries: Seq<Texture>, image: u64, index: int)
    requires
        0 <= index < entries.len(),
        entries[index].image == image,
        forall|j: int| 0 <= j < index ==> (#[trigger] entries[j]).image != image,
    ensures
        position(entries, image) == Some(index),
{
    lemma_position(entries, image);
}

/// The bindless texture table of one descriptor set: textures take slots in
/// the order of their first store and keep them for the table's lifetime.
pub struct Textures {
    slot: u32,
    binding: u32,
    max_descriptors: u32,
    layout: u64,
    set: u64,
    textures: Vec<Texture>,
}

impl View for Textures {
    type V = Table;

    closed spec fn view(&self) -> Table {
        Table { entries: self.textures@, capacity: self.max_descriptors as nat }
    }
}

impl Textures {
    /// The descriptor set number of the variable's declaration.
    pub closed spec fn spec_slot(&self) -> u32 {
        self.slot
    }

    /// The binding number of the variable's declaration.
    pub closed spec fn spec_binding(&self) -> u32 {
        self.binding
    }

    /// The handle of the descriptor set that holds the array.
    pub closed spec fn set(&self) -> u64 {
        self.set
    }

    /// The handle of the descriptor set layout.
    pub closed spec fn set_layout(&self) -> u64 {
        self.layout
    }

    /// The table behind it is well formed.
    pub open spec fn wf(&self) -> bool {
        self@.wf()
    }

    /// The bindings that the table's pool and set layout are made from: an
    /// array of `MAX_DESCRIPTORS` images with their samplers, seen by every
    /// stage.
    pub fn bindings(binding: u32) -> (bindings: Vec<DescriptorSetBinding>)
        ensures
            bindings@ == seq![
                DescriptorSetBinding {
                    binding,
                    descriptor_type: COMBINED_IMAGE_SAMPLER,
                    stages: STAGE_ALL,
                    count: 256,
                },
            ],
    {
        single_binding(binding, COMBINED_IMAGE_SAMPLER, STAGE_ALL, 256)
    }

    /// An empty table of `MAX_DESCRIPTORS` slots for the variable declared at
    /// `layout(set = slot, binding = binding)`, over a descriptor set and its
    /// layout that the device made.
    pub fn create(slot: u32, binding: u32, layout: u64, set: u64) -> (table: Textures)
        ensures
            table.wf(),
            table@ == Table::empty(MAX_DESCRIPTORS as nat),
            table.slot() == slot,
            table.binding() == binding,
            table.set_layout() == layout,
            table.set() == set,
    {
        Textures { slot, binding, max_descriptors: MAX_DESCRIPTORS, layout, set, textures: Vec::new() }
    }

    /// The descriptor set number of the variable's declaration.
    #[verifier::when_used_as_spec(spec_slot)]
    pub fn slot(&self) -> (slot: u32)
        ensures
            slot == self.spec_slot(),
    {
        self.slot
    }

    /// The binding number of the variable's declaration.
    #[verifier::when_used_as_spec(spec_binding)]
    pub fn binding(&self) -> (binding: u32)
        ensures
            binding == self.spec_binding(),
    {
        self.binding
    }

    /// The handle of the descriptor set layout.
    pub fn layout(&self) -> (layout: u64)
        ensures
            layout == self.set_layout(),
    {
        self.layout
    }

    /// The handle of the descriptor set that holds the array.
    pub fn descriptor(&self) -> (set: u64)
        ensures
            set == self.set(),
    {
        self.set
    }

    /// Number of slots taken.
    pub fn len(&self) -> (n: usize)
        ensures
            n == self@.entries.len(),
    {
        self.textures.len()
    }

    /// Number of slots of the table.
    pub fn capacity(&self) -> (n: u32)
        ensures
            n == self@.capacity,
    {
        self.max_descriptors
    }

    /// The slot of `texture`, by its image handle. The first store of a
    /// texture takes the next free slot and owes the device one descriptor
    /// write, which is handed back; every later store of it answers with the
    /// same slot and no write. A new texture that finds the table full is
    /// rejected and the table stays as it is.
    pub fn store(&mut self, texture: Texture, sampler: u64) -> (stored: Result<Stored, TableFull>)
        requires
            old(self).wf(),
        ensures
            final(self).wf(),
            final(self)@ == old(self)@.store(texture).0,
            final(self).slot() == old(self).slot(),
            final(self).binding() == old(self).binding(),
            final(self).set() == old(self).set(),
            final(self).set_layout() == old(self).set_layout(),
            match old(self)@.store(texture).1 {
                Slot::Known(index) => stored == Ok::<Stored, TableFull>(
                    Stored { index: index as u32, write: None },
                ),
                Slot::Fresh(index) => stored == Ok::<Stored, TableFull>(
                    Stored {
                        index: index as u32,
                        write: Some(
                            ImageWrite {
                                dst_set: old(self).set(),
                                dst_binding: old(self).binding(),
                                dst_array_element: index as u32,
                                image_view: texture.view,
                                sampler,
                            },
                        ),
                    },
                ),
                Slot::Rejected => stored == Err::<Stored, TableFull>(
                    TableFull { capacity: old(self)@.capacity as u32 },
                ),
            },
    {
        let mut index: usize = 0;
        while index < self.textures.len()
            invariant
                *self == *old(self),
                self.wf(),
                index <= self.textures@.len(),
                forall|j: int| 0 <= j < index ==> (#[trigger] self.textures@[j]).image != texture.image,
            decreases self.textures@.len() - index,
        {
            if self.textures[index].image == texture.image {
                proof {
                    lemma_position_is(self.textures@, texture.image, index as int);
                }
                return Ok(Stored { index: index as u32, write: None });
            }
            index = index + 1;
        }
        proof {
            lemma_position(self.textures@, texture.image);
        }
        if index >= self.max_descriptors as usize {
            return Err(TableFull { capacity: self.max_descriptors });
        }
        let write = ImageWrite {
            dst_set: self.set,
            dst_binding: self.binding,
            dst_array_element: index as u32,
            image_view: texture.view,
            sampler,
        };
        self.textures.push(texture);
        Ok(Stored { index: index as u32, write: Some(write) })
    }
}

/// Storing the same image twice answers with the same slot both times, and
/// the second store changes nothing and owes no write.
pub proof fn lemma_store_twice_same_slot(table: Table, texture: Texture, again: Texture)
    requires
        table.wf(),
        again.image == texture.image,
        !(table.store(texture).1 is Rejected),
    ensures
        table.store(texture).0.wf(),
        table.store(texture).0.store(again).0 == table.store(texture).0,
        match table.store(texture).1 {
            Slot::Known(index) => table.store(texture).0.store(again).1 == Slot::Known(index),
            Slot::Fresh(index) => table.store(texture).0.store(again).1 == Slot::Known(index),
            Slot::Rejected => false,
        },
{
    lemma_position(table.entries, texture.image);
    lemma_store_keeps_wf(table, texture);
    match table.store(texture).1 {
        Slot::Known(index) => {},
        Slot::Fresh(index) => {
            let next = table.entries.push(texture);
            lemma_position_is(next, again.image, index);
        },
        Slot::Rejected => {},
    }
}

/// A store keeps the table well formed, and never moves a texture that has
/// a slot.
pub proof fn lemma_store_keeps_wf(table: Table, texture: Texture)
    requires
        table.wf(),
    ensures
        table.store(texture).0.wf(),
        table.store(texture).0.capacity == table.capacity,
        table.entries.is_prefix_of(table.store(texture).0.entries),
{
    lemma_position(table.entries, texture.image);
}

/// A full table rejects every texture whose image it does not hold, and
/// stays as it is.
pub proof fn lemma_store_rejects_when_full(table: Table, texture: Texture)
    requires
        table.wf(),
        table.entries.len() == table.capacity,
        forall|j: int| 0 <= j < table.entries.len() ==> (#[trigger] table.entries[j]).image != texture.image,
    ensures
        table.store(texture) == (table, Slot::Rejected),
{
    lemma_position(table.entries, texture.image);
}

/// Textures with pairwise different images, as many as the table has slots,
/// take the slots in order; one more such texture is rejected.
pub proof fn lemma_store_fills_then_rejects(capacity: nat, textures: Seq<Texture>, extra: Texture)
    requires
        capacity <= u32::MAX,
        textures.len() == capacity,
        distinct_images(textures),
        forall|j: int| 0 <= j < textures.len() ==> (#[trigger] textures[j]).image != extra.image,
    ensures
        forall|k: int|
            0 <= k < textures.len() ==> (#[trigger] Table::empty(capacity).store_all(textures.take(k))).store(
                textures[k],
            ).1 == Slot::Fresh(k),
        Table::empty(capacity).store_all(textures) == (Table { entries: textures, capacity }),
        Table::empty(capacity).store_all(textures).store(extra).1 == Slot::Rejected,
{
    assert forall|k: int| 0 <= k <= textures.len() implies #[trigger] Table::empty(capacity).store_all(
        textures.take(k),
    ) == (Table { entries: textures.take(k), capacity }) by {
        lemma_store_prefix(capacity, textures, k);
    }
    assert(textures.take(textures.len() as int) =~= textures);
    assert forall|k: int| 0 <= k < textures.len() implies (#[trigger] Table::empty(capacity).store_all(
        textures.take(k),
    )).store(textures[k]).1 == Slot::Fresh(k) by {
        lemma_position(textures.take(k), textures[k].image);
    }
    lemma_position(textures, extra.image);
}

/// After storing the first `k` of textures with pairwise different images
/// into an empty table with room for them, the table holds exactly those.
proof fn lemma_store_prefix(capacity: nat, textures: Seq<Texture>, k: int)
    requires
        0 <= k <= textures.len(),
        textures.len() <= capacity,
        distinct_images(textures),
    ensures
        Table::empty(capacity).store_all(textures.take(k)) == (Table {
            entries: textures.take(k),
            capacity,
        }),
    decreases k,
{
    if k == 0 {
        assert(textures.take(0) =~= Seq::<Texture>::empty());
    } else {
        lemma_store_prefix(capacity, textures, k - 1);
        assert(textures.take(k).drop_last() =~= textures.take(k - 1));
        assert(textures.take(k).last() == textures[k - 1]);
        lemma_position(textures.take(k - 1), textures[k - 1].image);
        assert(textures.take(k - 1).push(textures[k - 1]) =~= textures.take(k));
    }
}

} // verus!
