use vstd::prelude::*;

use crate::vbo::BufferUsage;

verus! {

/// The most quads whose indices fit: every index, and every offset into the
/// index list, stays within 32 bits.
pub const MAX_QUADS: u32 = 715_827_882;

/// The vertex of its quad that the `k`-th of the six indices of a quad names.
/// The vertices are laid out as `0 1` over `2 3`, drawn as the triangles
/// `0 1 2` and `2 1 3`.
pub open spec fn quad_corner(k: int) -> int {
    if k == 0 {
        0
    } else if k == 1 {
        1
    } else if k == 2 {
        2
    } else if k == 3 {
        2
    } else if k == 4 {
        1
    } else {
        3
    }
}

/// The `k`-th index of quad `q` in `s`.
pub open spec fn index_at(s: Seq<u32>, q: int, k: int) -> u32 {
    s[6 * q + k]
}

/// `s` holds the indices of `count` quads, six per quad, each quad using its own
/// four vertices.
pub open spec fn is_quad_indices(s: Seq<u32>, count: int) -> bool {
    &&& s.len() == 6 * count
    &&& forall|q: int, k: int|
        0 <= q < count && 0 <= k < 6 ==> #[trigger] index_at(s, q, k) == 4 * q + quad_corner(k)
}

/// An index buffer object of the graphics backend and the indices it is to hold.
#[derive(Debug)]
pub struct IndexBuffer {
    id: u32,
    usage: BufferUsage,
    data: Vec<u32>,
}

impl IndexBuffer {
    pub closed spec fn spec_id(&self) -> u32 {
        self.id
    }

    pub closed spec fn spec_usage(&self) -> BufferUsage {
        self.usage
    }

    pub closed spec fn spec_data(&self) -> Seq<u32> {
        self.data@
    }

    /// Wraps the buffer object named `id`, with no indices yet.
    pub fn new(id: u32, usage: BufferUsage) -> (b: IndexBuffer)
        ensures
            b.spec_id() == id,
            b.spec_usage() == usage,
            b.spec_data() == Seq::<u32>::empty(),
    {
        IndexBuffer { id, usage, data: Vec::new() }
    }

    pub fn id(&self) -> (v: u32)
        ensures
            v == self.spec_id(),
    {
        self.id
    }

    pub fn usage(&self) -> (u: BufferUsage)
        ensures
            u == self.spec_usage(),
    {
        self.usage
    }

    pub fn data(&self) -> (d: &Vec<u32>)
        ensures
            d@ == self.spec_data(),
    {
        &self.data
    }

    pub fn data_mut(&mut self) -> (d: &mut Vec<u32>)
        ensures
            d@ == old(self).spec_data(),
            final(self).spec_data() == final(d)@,
            final(self).spec_id() == old(self).spec_id(),
            final(self).spec_usage() == old(self).spec_usage(),
    {
        &mut self.data
    }

    /// Replaces the indices.
    pub fn set_data(&mut self, data: Vec<u32>)
        ensures
            final(self).spec_data() == data@,
            final(self).spec_id() == old(self).spec_id(),
            final(self).spec_usage() == old(self).spec_usage(),
    {
        self.data = data;
    }

    /// Appends indices.
    pub fn add_data(&mut self, data: &[u32])
        ensures
            final(self).spec_data() == old(self).spec_data() + data@,
            final(self).spec_id() == old(self).spec_id(),
            final(self).spec_usage() == old(self).spec_usage(),
    {
        self.data.extend_from_slice(data);
        assert(self.data@ =~= old(self).data@ + data@);
    }

    /// Replaces the indices with those of `count` quads.
    pub fn auto_quads(&mut self, count: u32)
        requires
            count <= MAX_QUADS,
        ensures
            is_quad_indices(final(self).spec_data(), count as int),
            final(self).spec_id() == old(self).spec_id(),
            final(self).spec_usage() == old(self).spec_usage(),
    {
        self.data.clear();
        self.data.reserve(count as usize * 6);
        let mut i: u32 = 0;
        let mut q: u32 = 0;
        while q < count
            invariant
                q <= count,
                count <= MAX_QUADS,
                i == 4 * q,
                is_quad_indices(self.data@, q as int),
                self.id == old(self).id,
                self.usage == old(self).usage,
            decreases count - q,
        {
            let ghost prev = self.data@;
            self.add_data(&[i, i + 1, i + 2, i + 2, i + 1, i + 3]);
            assert forall|qq: int, k: int| 0 <= qq < q + 1 && 0 <= k < 6 implies
                #[trigger] index_at(self.data@, qq, k) == 4 * qq + quad_corner(k) by {
                if qq < q {
                    assert(index_at(prev, qq, k) == 4 * qq + quad_corner(k));
                }
            }
            i = i + 4;
            q = q + 1;
        }
    }
}

} // verus!
