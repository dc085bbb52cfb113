use vstd::prelude::*;

verus! {

// Enumerant values of the OpenGL core profile.
pub const FALSE: u8 = 0;
pub const TRUE: u8 = 1;

pub const POINTS: u32 = 0x0000;
pub const LINES: u32 = 0x0001;
pub const LINE_LOOP: u32 = 0x0002;
pub const LINE_STRIP: u32 = 0x0003;
pub const TRIANGLES: u32 = 0x0004;
pub const TRIANGLE_STRIP: u32 = 0x0005;
pub const TRIANGLE_FAN: u32 = 0x0006;
pub const LINES_ADJACENCY: u32 = 0x000A;
pub const LINE_STRIP_ADJACENCY: u32 = 0x000B;
pub const TRIANGLES_ADJACENCY: u32 = 0x000C;
pub const TRIANGLE_STRIP_ADJACENCY: u32 = 0x000D;

pub const BYTE: u32 = 0x1400;
pub const UNSIGNED_BYTE: u32 = 0x1401;
pub const INT: u32 = 0x1404;
pub const UNSIGNED_INT: u32 = 0x1405;
pub const FLOAT: u32 = 0x1406;

pub const NEAREST: u32 = 0x2600;
pub const LINEAR: u32 = 0x2601;

pub const STREAM_DRAW: u32 = 0x88E0;
pub const STATIC_DRAW: u32 = 0x88E4;
pub const DYNAMIC_DRAW: u32 = 0x88E8;

pub const FRAGMENT_SHADER: u32 = 0x8B30;
pub const VERTEX_SHADER: u32 = 0x8B31;

} // verus!
