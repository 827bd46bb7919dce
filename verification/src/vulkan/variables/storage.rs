//! A fixed-capacity staging array behind a storage buffer.

use crate::vulkan::buffer::MemoryBuffer;
use crate::vulkan::descriptors::{single_binding, DescriptorSetBinding, STORAGE_BUFFER};
use crate::vulkan::variables::variable::{BufferWrite, Variable};
use vstd::prelude::*;

verus! {

/// The index that a rejected `push` or `extend` hands back. No accepted
/// push hands it out: every slot's index is below it.
pub const SENTINEL: u32 = 0xFFFF_FFFF;

/// The staging array as a value: every slot, and how many of them have been
/// written since the last flush.
pub ghost struct Staging<T> {
    pub slots: Seq<T>,
    pub cursor: nat,
}

impl<T> Staging<T> {
    /// Number of slots, fixed at creation.
    pub open spec fn capacity(self) -> nat {
        self.slots.len()
    }

    /// The cursor stays inside the array, and every index, the cursor
    /// too, stays below the sentinel.
    pub open spec fn wf(self) -> bool {
        &&& self.cursor <= self.slots.len()
        &&& self.slots.len() < SENTINEL
    }

    /// An array of `slots` with nothing written yet.
    pub open spec fn fresh(slots: Seq<T>) -> Self {
        Staging { slots, cursor: 0 }
    }

    /// True when no slot is left.
    pub open spec fn is_full(self) -> bool {
        self.cursor >= self.slots.len()
    }

    /// State and index after one `push`: the value lands at the cursor, or a
    /// full array stays as it is and answers with the sentinel.
    pub open spec fn push(self, value: T) -> (Self, u32) {
        if self.is_full() {
            (self, SENTINEL)
        } else {
            (
                Staging { slots: self.slots.update(self.cursor as int, value), cursor: self.cursor + 1 },
                self.cursor as u32,
            )
        }
    }

    /// State after pushing `values` one by one, whatever each push answered.
    pub open spec fn push_all(self, values: Seq<T>) -> Self
        decreases values.len(),
    {
        if values.len() == 0 {
            self
        } else {
            self.push_all(values.drop_last()).push(values.last()).0
        }
    }

    /// State and index after one `extend`: the run lands at the cursor where
    /// it does not reach beyond the last slot, else nothing changes.
    pub open spec fn extend(self, values: Seq<T>) -> (Self, u32) {
        if self.cursor + values.len() > self.slots.len() {
            (self, SENTINEL)
        } else {
            (
                Staging {
                    slots: self.slots.subrange(0, self.cursor as int) + values + self.slots.subrange(
                        (self.cursor + values.len()) as int,
                        self.slots.len() as int,
                    ),
                    cursor: self.cursor + values.len(),
                },
                self.cursor as u32,
            )
        }
    }

    /// State after a flush: the slots keep their contents, the cursor is zero.
    pub open spec fn flush(self) -> Self {
        Staging { slots: self.slots, cursor: 0 }
    }
}

/// Host side of a shader storage buffer: one device buffer per frame in
/// flight and a staging array of fixed capacity with a write cursor.
pub struct Storage<T> {
    buffers: Vec<MemoryBuffer>,
    range: u64,
    collection: Vec<T>,
    cursor: usize,
}

impl<T> View for Storage<T> {
    type V = Staging<T>;

    closed spec fn view(&self) -> Staging<T> {
        Staging { slots: self.collection@, cursor: self.cursor as nat }
    }
}

impl<T> Storage<T> {
    /// The device buffers, one per frame in flight.
    pub closed spec fn buffers(&self) -> Seq<MemoryBuffer> {
        self.buffers@
    }

    /// Bytes that each device buffer holds.
    pub closed spec fn byte_range(&self) -> u64 {
        self.range
    }

    /// The staging array is well formed and the byte range is that of its
    /// whole capacity.
    pub open spec fn wf(&self) -> bool {
        &&& self@.wf()
        &&& self.byte_range() == self@.capacity() * vstd::layout::size_of::<T>()
    }

    /// Bytes needed for `n` elements.
    pub fn range_of(n: usize) -> (bytes: Option<u64>)
        ensures
            bytes == if n * vstd::layout::size_of::<T>() <= u64::MAX {
                Some((n * vstd::layout::size_of::<T>()) as u64)
            } else {
                None::<u64>
            },
    {
        let size: usize = core::mem::size_of::<T>();
        if size == 0 {
            assert(n * vstd::layout::size_of::<T>() == 0) by (nonlinear_arith)
                requires
                    vstd::layout::size_of::<T>() == 0,
            ;
            return Some(0);
        }
        let limit: u64 = u64::MAX / (size as u64);
        if n as u64 > limit {
            assert(n * size > u64::MAX) by (nonlinear_arith)
                requires
                    n > u64::MAX / (size as u64),
                    size > 0,
            ;
            None
        } else {
            assert(n * size <= u64::MAX) by (nonlinear_arith)
                requires
                    n <= u64::MAX / (size as u64),
                    size > 0,
            ;
            Some((n as u64) * (size as u64))
        }
    }

    /// True when nothing was written since the last flush.
    pub fn is_empty(&self) -> (empty: bool)
        ensures
            empty == (self@.cursor == 0),
    {
        self.cursor == 0
    }

    /// Number of slots written since the last flush.
    pub fn len(&self) -> (count: usize)
        ensures
            count == self@.cursor,
    {
        self.cursor
    }

    /// True when the next `push` will be rejected.
    pub fn is_full(&self) -> (full: bool)
        ensures
            full == self@.is_full(),
    {
        self.cursor >= self.collection.len()
    }

    /// Number of slots.
    pub fn capacity(&self) -> (n: usize)
        ensures
            n == self@.capacity(),
    {
        self.collection.len()
    }

    /// Number of frames in flight that this storage was created for.
    pub fn frames(&self) -> (n: usize)
        ensures
            n == self.buffers().len(),
    {
        self.buffers.len()
    }

    /// The device buffer of `frame`.
    pub fn buffer(&self, frame: usize) -> (buffer: MemoryBuffer)
        requires
            frame < self.buffers().len(),
        ensures
            buffer == self.buffers()[frame as int],
    {
        self.buffers[frame]
    }

    /// Bytes that each device buffer holds.
    pub fn range(&self) -> (bytes: u64)
        ensures
            bytes == self.byte_range(),
    {
        self.range
    }

    /// The whole staging array, as it is copied to a device buffer on flush.
    pub fn staged(&self) -> (slots: &Vec<T>)
        ensures
            slots@ == self@.slots,
    {
        &self.collection
    }

    /// Appends `value` at the cursor and returns its index. A full storage is
    /// left as it is and answers with `SENTINEL`.
    pub fn push(&mut self, value: T) -> (index: u32)
        requires
            old(self).wf(),
        ensures
            final(self).wf(),
            (final(self)@, index) == old(self)@.push(value),
            final(self).buffers() == old(self).buffers(),
            final(self).byte_range() == old(self).byte_range(),
    {
        if self.cursor >= self.collection.len() {
            return SENTINEL;
        }
        let at: usize = self.cursor;
        self.collection.set(at, value);
        self.cursor = at + 1;
        at as u32
    }

    /// Flushes the staging array for `frame`: hands back how many slots were
    /// written and resets the cursor, so that the next write lands at index
    /// zero again. The caller copies `staged()` into `buffer(frame)`.
    pub fn take_and_update(&mut self, frame: usize) -> (count: usize)
        requires
            old(self).wf(),
            frame < old(self).buffers().len(),
        ensures
            final(self).wf(),
            count == old(self)@.cursor,
            final(self)@ == old(self)@.flush(),
            final(self).buffers() == old(self).buffers(),
            final(self).byte_range() == old(self).byte_range(),
    {
        let count: usize = self.cursor;
        self.cursor = 0;
        count
    }

    /// The bindings that the storage's pool and set layout are made from:
    /// one storage buffer, seen by the vertex and the fragment stage.
    pub fn bindings(binding: u32) -> (bindings: Vec<DescriptorSetBinding>)
        ensures
            bindings@ == seq![
                DescriptorSetBinding {
                    binding,
                    descriptor_type: STORAGE_BUFFER,
                    stages: 0x11,
                    count: 1,
                },
            ],
    {
        single_binding(binding, STORAGE_BUFFER, 0x11, 1)
    }

    /// The variable that stands for the storage at
    /// `layout(set = set, binding = binding)`, over a set layout and the
    /// descriptor sets that the device made, one per frame in flight, and
    /// the descriptor writes that bind each frame's buffer to its set.
    pub fn layout(&self, set: u32, binding: u32, layout: u64, descriptors: Vec<u64>) -> (made: (
        Variable,
        Vec<BufferWrite>,
    ))
        requires
            descriptors@.len() == self.buffers().len(),
        ensures
            made.0.set == set,
            made.0.binding == binding,
            made.0.layout == layout,
            made.0.descriptors@ == descriptors@,
            made.1@.len() == self.buffers().len(),
            forall|frame: int|
                0 <= frame < made.1@.len() ==> #[trigger] made.1@[frame] == (BufferWrite {
                    dst_set: descriptors@[frame],
                    dst_binding: binding,
                    dst_array_element: 0,
                    buffer: self.buffers()[frame].handle,
                    offset: 0,
                    range: self.byte_range(),
                }),
    {
        let variable = Variable { set, binding, layout, descriptors };
        let writes = self.writes(&variable);
        (variable, writes)
    }

    /// The descriptor writes that bind each frame's buffer to that frame's
    /// descriptor set of `variable`, whole range, array element zero.
    pub fn writes(&self, variable: &Variable) -> (writes: Vec<BufferWrite>)
        requires
            variable.descriptors@.len() == self.buffers().len(),
        ensures
            writes@.len() == self.buffers().len(),
            forall|frame: int|
                0 <= frame < writes@.len() ==> #[trigger] writes@[frame] == (BufferWrite {
                    dst_set: variable.descriptors@[frame],
                    dst_binding: variable.binding,
                    dst_array_element: 0,
                    buffer: self.buffers()[frame].handle,
                    offset: 0,
                    range: self.byte_range(),
                }),
    {
        let mut writes: Vec<BufferWrite> = Vec::new();
        let mut frame: usize = 0;
        while frame < self.buffers.len()
            invariant
                frame <= self.buffers@.len(),
                variable.descriptors@.len() == self.buffers@.len(),
                writes@.len() == frame,
                forall|k: int|
                    0 <= k < frame ==> #[trigger] writes@[k] == (BufferWrite {
                        dst_set: variable.descriptors@[k],
                        dst_binding: variable.binding,
                        dst_array_element: 0,
                        buffer: self.buffers@[k].handle,
                        offset: 0,
                        range: self.range,
                    }),
            decreases self.buffers@.len() - frame,
        {
            writes.push(
                BufferWrite {
                    dst_set: variable.descriptors[frame],
                    dst_binding: variable.binding,
                    dst_array_element: 0,
                    buffer: self.buffers[frame].handle,
                    offset: 0,
                    range: self.range,
                },
            );
            frame = frame + 1;
        }
        writes
    }
}

impl<T: Copy> Storage<T> {
    /// Appends the run `values` at the cursor and returns the index of its
    /// first element. A run that would reach beyond the last slot is
    /// rejected: the storage is left as it is and answers with `SENTINEL`.
    pub fn extend(&mut self, values: &[T]) -> (index: u32)
        requires
            old(self).wf(),
        ensures
            final(self).wf(),
            (final(self)@, index) == old(self)@.extend(values@),
            final(self).buffers() == old(self).buffers(),
            final(self).byte_range() == old(self).byte_range(),
    {
        let count: usize = values.len();
        let start: usize = self.cursor;
        if count > self.collection.len() - start {
            return SENTINEL;
        }
        let ghost before = self.collection@;
        let mut k: usize = 0;
        while k < count
            invariant
                k <= count,
                count == values@.len(),
                start + count <= self.collection@.len(),
                self.collection@.len() == before.len(),
                self.cursor == start,
                self.buffers == old(self).buffers,
                self.range == old(self).range,
                forall|i: int| 0 <= i < start ==> self.collection@[i] == before[i],
                forall|i: int| start <= i < start + k ==> self.collection@[i] == values@[i - start],
                forall|i: int| start + k <= i < before.len() ==> self.collection@[i] == before[i],
            decreases count - k,
        {
            assert(start + k < self.collection.len());
            self.collection.set(start + k, values[k]);
            k = k + 1;
        }
        self.cursor = start + count;
        assert(self.collection@ =~= before.subrange(0, start as int) + values@ + before.subrange(
            start + count,
            before.len() as int,
        ));
        start as u32
    }
}

impl<T: Copy + Default> Storage<T> {
    /// A storage of `n` slots over `buffers`, one buffer per frame in flight.
    /// Every slot starts as the default element and nothing is written yet.
    pub fn create(buffers: Vec<MemoryBuffer>, n: usize) -> (storage: Self)
        requires
            n < SENTINEL,
            n * vstd::layout::size_of::<T>() <= u64::MAX,
        ensures
            storage.wf(),
            storage.buffers() == buffers@,
            storage@.cursor == 0,
            storage@.capacity() == n,
            exists|fill: T|
                call_ensures(T::default, (), fill) && storage@.slots == Seq::new(n as nat, |i: int| fill),
    {
        let fill: T = T::default();
        let mut collection: Vec<T> = Vec::new();
        let mut k: usize = 0;
        while k < n
            invariant
                k <= n,
                collection@.len() == k,
                forall|i: int| 0 <= i < k ==> collection@[i] == fill,
            decreases n - k,
        {
            collection.push(fill);
            k = k + 1;
        }
        assert(collection@ =~= Seq::new(n as nat, |i: int| fill));
        let range: Option<u64> = Self::range_of(n);
        Storage { buffers, range: range.unwrap(), collection, cursor: 0 }
    }
}

/// Pushing as many values as there are slots into an array with nothing
/// written succeeds every time, each value landing at its own index, which
/// is never the sentinel; one push more is rejected with the sentinel and
/// changes nothing.
pub proof fn lemma_push_fills_then_rejects<T>(slots: Seq<T>, values: Seq<T>, extra: T)
    requires
        slots.len() < SENTINEL,
        values.len() == slots.len(),
    ensures
        forall|k: int|
            0 <= k < values.len() ==> {
                let before = #[trigger] Staging::fresh(slots).push_all(values.take(k));
                &&& !before.is_full()
                &&& before.push(values[k]).1 == k
                &&& before.push(values[k]).1 != SENTINEL
                &&& before.push(values[k]).0.slots[k] == values[k]
            },
        Staging::fresh(slots).push_all(values).is_full(),
        Staging::fresh(slots).push_all(values) == (Staging { slots: values, cursor: values.len() }),
        Staging::fresh(slots).push_all(values).push(extra) == (
            Staging::fresh(slots).push_all(values),
            SENTINEL,
        ),
{
    assert forall|k: int| 0 <= k <= values.len() implies #[trigger] Staging::fresh(slots).push_all(
        values.take(k),
    ) == (Staging { slots: values.take(k) + slots.skip(k), cursor: k as nat }) by {
        lemma_push_prefix(slots, values, k);
    }
    assert(values.take(values.len() as int) =~= values);
    assert(values + slots.skip(values.len() as int) =~= values);
}

/// After `k` pushes into a fresh array of at least `k` slots, the first `k`
/// slots hold the pushed values in order and the rest are untouched.
proof fn lemma_push_prefix<T>(slots: Seq<T>, values: Seq<T>, k: int)
    requires
        0 <= k <= values.len(),
        values.len() <= slots.len(),
    ensures
        Staging::fresh(slots).push_all(values.take(k)) == (Staging {
            slots: values.take(k) + slots.skip(k),
            cursor: k as nat,
        }),
    decreases k,
{
    if k == 0 {
        assert(values.take(0) + slots.skip(0) =~= slots);
    } else {
        lemma_push_prefix(slots, values, k - 1);
        assert(values.take(k).drop_last() =~= values.take(k - 1));
        assert(values.take(k).last() == values[k - 1]);
        assert((values.take(k - 1) + slots.skip(k - 1)).update(k - 1, values[k - 1]) =~= values.take(k)
            + slots.skip(k));
    }
}

/// A flush always leaves the cursor at zero, and the push that follows it
/// writes slot zero again: the array is reused, it does not grow.
pub proof fn lemma_push_after_flush_reuses_slot_zero<T>(staging: Staging<T>, value: T)
    requires
        staging.wf(),
        staging.capacity() > 0,
    ensures
        staging.flush().cursor == 0,
        staging.flush().push(value).1 == 0,
        staging.flush().push(value).0.slots == staging.slots.update(0, value),
        staging.flush().push(value).0.capacity() == staging.capacity(),
{
}

/// The sentinel is told from every index: a push answers with it exactly
/// when it is rejected, and so does an extend; and what is rejected
/// changes nothing.
pub proof fn lemma_sentinel_means_rejected<T>(staging: Staging<T>, value: T, values: Seq<T>)
    requires
        staging.wf(),
    ensures
        staging.push(value).1 == SENTINEL <==> staging.is_full(),
        staging.push(value).1 == SENTINEL ==> staging.push(value).0 == staging,
        staging.extend(values).1 == SENTINEL <==> staging.cursor + values.len() > staging.capacity(),
        staging.extend(values).1 == SENTINEL ==> staging.extend(values).0 == staging,
{
}

/// A run that ends exactly at the last slot is taken, and fills the
/// storage.
pub proof fn lemma_extend_fills_exactly<T>(staging: Staging<T>, values: Seq<T>)
    requires
        staging.wf(),
        staging.cursor + values.len() == staging.capacity(),
    ensures
        staging.extend(values).1 == staging.cursor,
        staging.extend(values).0.is_full(),
        staging.extend(values).0.slots == staging.slots.subrange(0, staging.cursor as int) + values,
        staging.extend(values).0.wf(),
{
    assert(staging.slots.subrange(staging.capacity() as int, staging.capacity() as int)
        =~= Seq::<T>::empty());
    assert(staging.extend(values).0.slots =~= staging.slots.subrange(0, staging.cursor as int)
        + values);
}

} // verus!
