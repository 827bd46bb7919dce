//! A fixed-capacity vertex array behind a vertex buffer.

use crate::vulkan::buffer::MemoryBuffer;
use vstd::prelude::*;

verus! {

/// Number of vertices that a rectangle takes as two triangles.
pub const RECT_VERTICES_N: usize = 6;

/// A run of vertices in a mesh: where it starts and how long it is.
#[derive(Debug, Clone, Copy, PartialEq, Eq, Structural)]
pub struct Vertices {
    pub ptr: usize,
    pub len: usize,
}

/// The vertices of `polygon` as a list of triangles: a polygon of more than
/// three corners becomes the fan of triangles around its first corner,
/// anything else stays as it is.
pub open spec fn triangles<V>(polygon: Seq<V>) -> Seq<V> {
    if polygon.len() > 3 {
        Seq::new(
            (3 * (polygon.len() - 2)) as nat,
            |i: int|
                if i % 3 == 0 {
                    polygon[0]
                } else if i % 3 == 1 {
                    polygon[i / 3 + 1]
                } else {
                    polygon[i / 3 + 2]
                },
        )
    } else {
        polygon
    }
}

/// The vertices of `polygon` as a list of triangles.
pub fn triangulate<V: Copy>(polygon: &[V]) -> (list: Vec<V>)
    requires
        3 * polygon@.len() <= usize::MAX,
    ensures
        list@ == triangles(polygon@),
{
    let mut list: Vec<V> = Vec::new();
    if polygon.len() > 3 {
        let mut n: usize = 2;
        while n < polygon.len()
            invariant
                2 <= n <= polygon@.len(),
                polygon@.len() > 3,
                list@.len() == 3 * (n - 2),
                forall|i: int| 0 <= i < list@.len() ==> list@[i] == triangles(polygon@)[i],
            decreases polygon@.len() - n,
        {
            list.push(polygon[0]);
            list.push(polygon[n - 1]);
            list.push(polygon[n]);
            n = n + 1;
        }
        assert(list@ =~= triangles(polygon@));
    } else {
        let mut n: usize = 0;
        while n < polygon.len()
            invariant
                n <= polygon@.len(),
                list@ == polygon@.take(n as int),
            decreases polygon@.len() - n,
        {
            list.push(polygon[n]);
            assert(list@ =~= polygon@.take(n + 1));
            n = n + 1;
        }
        assert(polygon@.take(polygon@.len() as int) =~= polygon@);
    }
    list
}

/// The vertex array as a value: every slot, and how many are taken.
pub ghost struct Staged<V> {
    pub vertices: Seq<V>,
    pub cursor: nat,
}

impl<V> Staged<V> {
    /// The cursor stays inside the array.
    pub open spec fn wf(self) -> bool {
        self.cursor <= self.vertices.len()
    }

    /// State and answer after one append: the run lands at the cursor where
    /// it fits, and nothing changes where it does not.
    pub open spec fn append(self, run: Seq<V>) -> (Self, Option<Vertices>) {
        if self.cursor + run.len() > self.vertices.len() {
            (self, None)
        } else {
            (
                Staged {
                    vertices: self.vertices.subrange(0, self.cursor as int) + run
                        + self.vertices.subrange(
                        (self.cursor + run.len()) as int,
                        self.vertices.len() as int,
                    ),
                    cursor: self.cursor + run.len(),
                },
                Some(Vertices { ptr: self.cursor as usize, len: run.len() as usize }),
            )
        }
    }
}

/// Host side of a vertex buffer: one device buffer per frame in flight and
/// a vertex array of fixed capacity with a write cursor.
pub struct Mesh<V> {
    buffers: Vec<MemoryBuffer>,
    vertices: Vec<V>,
    cursor: usize,
}

impl<V> View for Mesh<V> {
    type V = Staged<V>;

    closed spec fn view(&self) -> Staged<V> {
        Staged { vertices: self.vertices@, cursor: self.cursor as nat }
    }
}

impl<V: Copy> Mesh<V> {
    /// The device buffers, one per frame in flight.
    pub closed spec fn buffers(&self) -> Seq<MemoryBuffer> {
        self.buffers@
    }

    /// The vertex array behind it is well formed.
    pub open spec fn wf(&self) -> bool {
        self@.wf()
    }

    /// A mesh of `n` vertices, all `fill`, over `buffers`.
    pub fn create(buffers: Vec<MemoryBuffer>, n: usize, fill: V) -> (mesh: Self)
        ensures
            mesh.wf(),
            mesh.buffers() == buffers@,
            mesh@ == (Staged { vertices: Seq::new(n as nat, |i: int| fill), cursor: 0 }),
    {
        let mut vertices: Vec<V> = Vec::new();
        let mut k: usize = 0;
        while k < n
            invariant
                k <= n,
                vertices@.len() == k,
                forall|i: int| 0 <= i < k ==> vertices@[i] == fill,
            decreases n - k,
        {
            vertices.push(fill);
            k = k + 1;
        }
        assert(vertices@ =~= Seq::new(n as nat, |i: int| fill));
        Mesh { buffers, vertices, cursor: 0 }
    }

    /// Number of frames in flight that the mesh was created for.
    pub fn frames(&self) -> (n: usize)
        ensures
            n == self.buffers().len(),
    {
        self.buffers.len()
    }

    /// The device buffer of `frame`.
    pub fn buffer(&self, frame: usize) -> (buffer: MemoryBuffer)
        requires
            frame < self.buffers().len(),
        ensures
            buffer == self.buffers()[frame as int],
    {
        self.buffers[frame]
    }

    /// The whole vertex array, as it is copied to a device buffer.
    pub fn staged(&self) -> (vertices: &Vec<V>)
        ensures
            vertices@ == self@.vertices,
    {
        &self.vertices
    }

    /// Appends the run `vertices` at the cursor and answers with where it
    /// stands. A run that does not fit is refused and changes nothing.
    pub fn append(&mut self, vertices: &[V]) -> (run: Option<Vertices>)
        requires
            old(self).wf(),
        ensures
            final(self).wf(),
            (final(self)@, run) == old(self)@.append(vertices@),
            final(self).buffers() == old(self).buffers(),
    {
        let ptr: usize = self.cursor;
        let len: usize = vertices.len();
        if len > self.vertices.len() - ptr {
            return None;
        }
        let ghost before = self.vertices@;
        let mut k: usize = 0;
        while k < len
            invariant
                k <= len,
                len == vertices@.len(),
                ptr + len <= self.vertices.len(),
                self.vertices@.len() == before.len(),
                self.cursor == ptr,
                self.buffers == old(self).buffers,
                forall|i: int| 0 <= i < ptr ==> self.vertices@[i] == before[i],
                forall|i: int| ptr <= i < ptr + k ==> self.vertices@[i] == vertices@[i - ptr],
                forall|i: int| ptr + k <= i < before.len() ==> self.vertices@[i] == before[i],
            decreases len - k,
        {
            self.vertices.set(ptr + k, vertices[k]);
            k = k + 1;
        }
        self.cursor = ptr + len;
        assert(self.vertices@ =~= before.subrange(0, ptr as int) + vertices@ + before.subrange(
            ptr + len,
            before.len() as int,
        ));
        Some(Vertices { ptr, len })
    }

    /// Appends `polygon` as a list of triangles.
    pub fn add_polygon(&mut self, polygon: &[V]) -> (run: Option<Vertices>)
        requires
            old(self).wf(),
            3 * polygon@.len() <= usize::MAX,
        ensures
            final(self).wf(),
            (final(self)@, run) == old(self)@.append(triangles(polygon@)),
            final(self).buffers() == old(self).buffers(),
    {
        let list = triangulate(polygon);
        self.append(list.as_slice())
    }

    /// Flushes the vertex array for `frame`: hands back how many vertices
    /// were written and resets the cursor. The caller copies `staged()` into
    /// `buffer(frame)`.
    pub fn update(&mut self, frame: usize) -> (count: usize)
        requires
            old(self).wf(),
            frame < old(self).buffers().len(),
        ensures
            final(self).wf(),
            count == old(self)@.cursor,
            final(self)@ == (Staged { vertices: old(self)@.vertices, cursor: 0 }),
            final(self).buffers() == old(self).buffers(),
    {
        let count: usize = self.cursor;
        self.cursor = 0;
        count
    }
}

} // verus!
