use vstd::prelude::*;

use crate::glenum;
use crate::vertex::VertexAttrib;

verus! {

/// How vertices are assembled into primitives.
#[derive(Copy, Clone, PartialEq, Eq, Debug, Structural)]
pub enum PrimitiveType {
    Points,
    LineStrip,
    LineLoop,
    Lines,
    LineStripAdjacency,
    LinesAdjacency,
    TriangleStrip,
    TriangleFan,
    Triangles,
    TriangleStripAdjacency,
    TrianglesAdjacency,
}

impl PrimitiveType {
    pub open spec fn gl_type_spec(self) -> u32 {
        match self {
            PrimitiveType::Points => glenum::POINTS,
            PrimitiveType::LineStrip => glenum::LINE_STRIP,
            PrimitiveType::LineLoop => glenum::LINE_LOOP,
            PrimitiveType::Lines => glenum::LINES,
            PrimitiveType::LineStripAdjacency => glenum::LINE_STRIP_ADJACENCY,
            PrimitiveType::LinesAdjacency => glenum::LINES_ADJACENCY,
            PrimitiveType::TriangleStrip => glenum::TRIANGLE_STRIP,
            PrimitiveType::TriangleFan => glenum::TRIANGLE_FAN,
            PrimitiveType::Triangles => glenum::TRIANGLES,
            PrimitiveType::TriangleStripAdjacency => glenum::TRIANGLE_STRIP_ADJACENCY,
            PrimitiveType::TrianglesAdjacency => glenum::TRIANGLES_ADJACENCY,
        }
    }

    /// The OpenGL enumerant of the primitive type.
    pub fn gl_type(&self) -> (v: u32)
        ensures
            v == self.gl_type_spec(),
    {
        match *self {
            PrimitiveType::Points => glenum::POINTS,
            PrimitiveType::LineStrip => glenum::LINE_STRIP,
            PrimitiveType::LineLoop => glenum::LINE_LOOP,
            PrimitiveType::Lines => glenum::LINES,
            PrimitiveType::LineStripAdjacency => glenum::LINE_STRIP_ADJACENCY,
            PrimitiveType::LinesAdjacency => glenum::LINES_ADJACENCY,
            PrimitiveType::TriangleStrip => glenum::TRIANGLE_STRIP,
            PrimitiveType::TriangleFan => glenum::TRIANGLE_FAN,
            PrimitiveType::Triangles => glenum::TRIANGLES,
            PrimitiveType::TriangleStripAdjacency => glenum::TRIANGLE_STRIP_ADJACENCY,
            PrimitiveType::TrianglesAdjacency => glenum::TRIANGLES_ADJACENCY,
        }
    }
}

/// Where one vertex attribute is read from: the arguments of
/// `glVertexAttribPointer`, with its instance divisor.
#[derive(Copy, Clone, PartialEq, Eq, Debug, Structural)]
pub struct AttribPointer {
    pub index: u32,
    pub count: i32,
    pub typ: u32,
    pub normalized: u8,
    pub stride: i32,
    pub offset: u64,
    pub divisor: u32,
}

/// The byte offset of attribute `j`: the sizes of those before it.
pub open spec fn attr_offset(attrs: Seq<VertexAttrib>, j: int) -> int
    decreases j,
{
    if j <= 0 {
        0
    } else {
        attr_offset(attrs, j - 1) + attrs[j - 1].gl_data_spec().3
    }
}

/// A vertex array object of the graphics backend, and the next free attribute index.
#[derive(Debug)]
pub struct VertexArray {
    id: u32,
    base_index: u32,
}

impl VertexArray {
    pub closed spec fn spec_id(&self) -> u32 {
        self.id
    }

    pub closed spec fn spec_base_index(&self) -> u32 {
        self.base_index
    }

    /// Wraps the vertex array object named `id`, with no attributes yet.
    pub fn new(id: u32) -> (va: VertexArray)
        ensures
            va.spec_id() == id,
            va.spec_base_index() == 0,
    {
        VertexArray { id, base_index: 0 }
    }

    pub fn id(&self) -> (v: u32)
        ensures
            v == self.spec_id(),
    {
        self.id
    }

    /// Lays out the attributes of one vertex buffer after those already added:
    /// each gets the next index, and its offset is the size of the attributes
    /// before it in the vertex.
    pub fn add_vertex_buffer(&mut self, attrs: &Vec<VertexAttrib>, stride: i32, divisor: u32) -> (p: Vec<AttribPointer>)
        requires
            old(self).spec_base_index() + attrs@.len() <= u32::MAX,
        ensures
            final(self).spec_id() == old(self).spec_id(),
            final(self).spec_base_index() == old(self).spec_base_index() + attrs@.len(),
            p@.len() == attrs@.len(),
            forall|j: int|
                0 <= j < attrs@.len() ==> #[trigger] p@[j] == (AttribPointer {
                    index: (old(self).spec_base_index() + j) as u32,
                    count: attrs@[j].gl_data_spec().1,
                    typ: attrs@[j].gl_data_spec().0,
                    normalized: attrs@[j].gl_data_spec().2,
                    stride,
                    offset: attr_offset(attrs@, j) as u64,
                    divisor,
                }),
    {
        let mut out: Vec<AttribPointer> = Vec::new();
        let mut pos: u64 = 0;
        let mut j: usize = 0;
        while j < attrs.len()
            invariant
                j <= attrs@.len(),
                self.id == old(self).id,
                self.base_index == old(self).base_index + j,
                old(self).base_index + attrs@.len() <= u32::MAX,
                pos == attr_offset(attrs@, j as int),
                pos <= 16 * j,
                out@.len() == j,
                forall|i: int|
                    0 <= i < j ==> #[trigger] out@[i] == (AttribPointer {
                        index: (old(self).base_index + i) as u32,
                        count: attrs@[i].gl_data_spec().1,
                        typ: attrs@[i].gl_data_spec().0,
                        normalized: attrs@[i].gl_data_spec().2,
                        stride,
                        offset: attr_offset(attrs@, i) as u64,
                        divisor,
                    }),
            decreases attrs@.len() - j,
        {
            let (typ, count, norm, size) = attrs[j].gl_data();
            out.push(AttribPointer { index: self.base_index, count, typ, normalized: norm, stride, offset: pos, divisor });
            self.base_index = self.base_index + 1;
            pos = pos + size as u64;
            j = j + 1;
        }
        out
    }
}

} // verus!
