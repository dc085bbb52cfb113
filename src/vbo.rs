use vstd::prelude::*;

use crate::glenum;

verus! {

/// How often a buffer's contents are expected to change.
#[derive(Copy, Clone, PartialEq, Eq, Debug, Structural)]
pub enum BufferUsage {
    Stream,
    Static,
    Dynamic,
}

impl BufferUsage {
    /// The OpenGL enumerant of the usage hint.
    pub fn gl_usage(&self) -> (v: u32)
        ensures
            v == match *self {
                BufferUsage::Stream => glenum::STREAM_DRAW,
                BufferUsage::Static => glenum::STATIC_DRAW,
                BufferUsage::Dynamic => glenum::DYNAMIC_DRAW,
            },
    {
        match *self {
            BufferUsage::Stream => glenum::STREAM_DRAW,
            BufferUsage::Static => glenum::STATIC_DRAW,
            BufferUsage::Dynamic => glenum::DYNAMIC_DRAW,
        }
    }
}

/// How an upload reaches the backend's buffer.
#[derive(Copy, Clone, PartialEq, Eq, Debug, Structural)]
pub enum UploadKind {
    /// The buffer is reallocated to the new, larger size.
    Reallocate,
    /// The contents are written over the start of the existing storage.
    Update,
}

/// A vertex buffer object of the graphics backend, the vertices it is to hold,
/// and how many vertices its storage holds.
#[derive(Debug)]
pub struct VertexBuffer<T> {
    id: u32,
    usage: BufferUsage,
    capacity: usize,
    data: Vec<T>,
}

impl<T: Copy> VertexBuffer<T> {
    pub closed spec fn spec_id(&self) -> u32 {
        self.id
    }

    pub closed spec fn spec_usage(&self) -> BufferUsage {
        self.usage
    }

    pub closed spec fn spec_capacity(&self) -> usize {
        self.capacity
    }

    pub closed spec fn spec_data(&self) -> Seq<T> {
        self.data@
    }

    /// Wraps the buffer object named `id`, with no storage and no vertices yet.
    pub fn new(id: u32, usage: BufferUsage) -> (b: VertexBuffer<T>)
        ensures
            b.spec_id() == id,
            b.spec_usage() == usage,
            b.spec_capacity() == 0,
            b.spec_data() == Seq::<T>::empty(),
    {
        VertexBuffer { id, usage, capacity: 0, data: Vec::new() }
    }

    pub fn id(&self) -> (v: u32)
        ensures
            v == self.spec_id(),
    {
        self.id
    }

    pub fn usage(&self) -> (u: BufferUsage)
        ensures
            u == self.spec_usage(),
    {
        self.usage
    }

    pub fn capacity(&self) -> (c: usize)
        ensures
            c == self.spec_capacity(),
    {
        self.capacity
    }

    pub fn data(&self) -> (d: &Vec<T>)
        ensures
            d@ == self.spec_data(),
    {
        &self.data
    }

    pub fn data_mut(&mut self) -> (d: &mut Vec<T>)
        ensures
            d@ == old(self).spec_data(),
            final(self).spec_data() == final(d)@,
            final(self).spec_id() == old(self).spec_id(),
            final(self).spec_usage() == old(self).spec_usage(),
            final(self).spec_capacity() == old(self).spec_capacity(),
    {
        &mut self.data
    }

    /// Replaces the vertices.
    pub fn set_data(&mut self, data: Vec<T>)
        ensures
            final(self).spec_data() == data@,
            final(self).spec_id() == old(self).spec_id(),
            final(self).spec_usage() == old(self).spec_usage(),
            final(self).spec_capacity() == old(self).spec_capacity(),
    {
        self.data = data;
    }

    /// Exchanges the vertices with those of `data`.
    pub fn swap_data(&mut self, data: &mut Vec<T>)
        ensures
            final(self).spec_data() == old(data)@,
            final(data)@ == old(self).spec_data(),
            final(self).spec_id() == old(self).spec_id(),
            final(self).spec_usage() == old(self).spec_usage(),
            final(self).spec_capacity() == old(self).spec_capacity(),
    {
        std::mem::swap(&mut self.data, data);
    }

    /// Appends vertices.
    pub fn add_vertices(&mut self, v: &[T])
        ensures
            final(self).spec_data() == old(self).spec_data() + v@,
            final(self).spec_id() == old(self).spec_id(),
            final(self).spec_usage() == old(self).spec_usage(),
            final(self).spec_capacity() == old(self).spec_capacity(),
    {
        let mut i: usize = 0;
        while i < v.len()
            invariant
                i <= v@.len(),
                self.data@ == old(self).data@ + v@.subrange(0, i as int),
                self.id == old(self).id,
                self.usage == old(self).usage,
                self.capacity == old(self).capacity,
            decreases v@.len() - i,
        {
            self.data.push(v[i]);
            assert(v@.subrange(0, i + 1) =~= v@.subrange(0, i as int).push(v@[i as int]));
            i = i + 1;
        }
        assert(v@.subrange(0, v@.len() as int) =~= v@);
    }

    /// Decides how the vertices reach the backend: storage that is too small is
    /// reallocated to fit them exactly; otherwise it is written over in place and
    /// never shrinks.
    pub fn prepare_upload(&mut self) -> (k: UploadKind)
        ensures
            k == (if old(self).spec_data().len() > old(self).spec_capacity() {
                UploadKind::Reallocate
            } else {
                UploadKind::Update
            }),
            final(self).spec_capacity() == if k == UploadKind::Reallocate {
                old(self).spec_data().len() as usize
            } else {
                old(self).spec_capacity()
            },
            final(self).spec_data() == old(self).spec_data(),
            final(self).spec_id() == old(self).spec_id(),
            final(self).spec_usage() == old(self).spec_usage(),
    {
        let count = self.data.len();
        if count > self.capacity {
            self.capacity = count;
            UploadKind::Reallocate
        } else {
            UploadKind::Update
        }
    }
}

} // verus!
