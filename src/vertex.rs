use vstd::prelude::*;

use crate::glenum;

verus! {

/// The type of one attribute of a vertex, with whether floats are normalized.
#[derive(Copy, Clone, PartialEq, Eq, Debug, Structural)]
pub enum VertexAttrib {
    Float1(bool),
    Float2(bool),
    Float3(bool),
    Float4(bool),
    Byte4,
    UByte4,
    Int1,
    Int2,
    Int3,
    Int4,
    UInt1,
    UInt2,
    UInt3,
    UInt4,
}

pub open spec fn gl_bool(b: bool) -> u8 {
    if b {
        glenum::TRUE
    } else {
        glenum::FALSE
    }
}

fn flag(n: bool) -> (r: u8)
    ensures
        r == gl_bool(n),
{
    if n {
        glenum::TRUE
    } else {
        glenum::FALSE
    }
}

impl VertexAttrib {
    /// The component type, the component count, whether the values are
    /// normalized, and the size in bytes.
    pub open spec fn gl_data_spec(self) -> (u32, i32, u8, usize) {
        match self {
            VertexAttrib::Float1(n) => (glenum::FLOAT, 1, gl_bool(n), 4),
            VertexAttrib::Float2(n) => (glenum::FLOAT, 2, gl_bool(n), 8),
            VertexAttrib::Float3(n) => (glenum::FLOAT, 3, gl_bool(n), 12),
            VertexAttrib::Float4(n) => (glenum::FLOAT, 4, gl_bool(n), 16),
            VertexAttrib::Byte4 => (glenum::BYTE, 4, glenum::TRUE, 4),
            VertexAttrib::UByte4 => (glenum::UNSIGNED_BYTE, 4, glenum::TRUE, 4),
            VertexAttrib::Int1 => (glenum::INT, 1, glenum::TRUE, 4),
            VertexAttrib::Int2 => (glenum::INT, 2, glenum::TRUE, 8),
            VertexAttrib::Int3 => (glenum::INT, 3, glenum::TRUE, 12),
            VertexAttrib::Int4 => (glenum::INT, 4, glenum::TRUE, 16),
            VertexAttrib::UInt1 => (glenum::UNSIGNED_INT, 1, glenum::TRUE, 4),
            VertexAttrib::UInt2 => (glenum::UNSIGNED_INT, 2, glenum::TRUE, 8),
            VertexAttrib::UInt3 => (glenum::UNSIGNED_INT, 3, glenum::TRUE, 12),
            VertexAttrib::UInt4 => (glenum::UNSIGNED_INT, 4, glenum::TRUE, 16),
        }
    }

    /// The component type, the component count, whether the values are
    /// normalized, and the size in bytes.
    pub fn gl_data(&self) -> (d: (u32, i32, u8, usize))
        ensures
            d == self.gl_data_spec(),
    {
        match *self {
            VertexAttrib::Float1(n) => (glenum::FLOAT, 1, flag(n), 4),
            VertexAttrib::Float2(n) => (glenum::FLOAT, 2, flag(n), 8),
            VertexAttrib::Float3(n) => (glenum::FLOAT, 3, flag(n), 12),
            VertexAttrib::Float4(n) => (glenum::FLOAT, 4, flag(n), 16),
            VertexAttrib::Byte4 => (glenum::BYTE, 4, glenum::TRUE, 4),
            VertexAttrib::UByte4 => (glenum::UNSIGNED_BYTE, 4, glenum::TRUE, 4),
            VertexAttrib::Int1 => (glenum::INT, 1, glenum::TRUE, 4),
            VertexAttrib::Int2 => (glenum::INT, 2, glenum::TRUE, 8),
            VertexAttrib::Int3 => (glenum::INT, 3, glenum::TRUE, 12),
            VertexAttrib::Int4 => (glenum::INT, 4, glenum::TRUE, 16),
            VertexAttrib::UInt1 => (glenum::UNSIGNED_INT, 1, glenum::TRUE, 4),
            VertexAttrib::UInt2 => (glenum::UNSIGNED_INT, 2, glenum::TRUE, 8),
            VertexAttrib::UInt3 => (glenum::UNSIGNED_INT, 3, glenum::TRUE, 12),
            VertexAttrib::UInt4 => (glenum::UNSIGNED_INT, 4, glenum::TRUE, 16),
        }
    }
}

/// A vertex type that a vertex buffer can hold: it lists its attributes in
/// memory order.
pub trait Vertex: Copy + Clone {
    fn attributes() -> Vec<VertexAttrib>;

    /// How many instances share one value; zero for per-vertex data.
    fn divisor() -> u32;
}

/// A vertex of one packed color.
#[derive(Copy, Clone, Debug)]
pub struct ColorVertex {
    pub col: u32,
}

impl Vertex for ColorVertex {
    fn attributes() -> Vec<VertexAttrib> {
        vec![VertexAttrib::UByte4]
    }

    fn divisor() -> u32 {
        0
    }
}

} // verus!
