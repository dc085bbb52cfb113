use vstd::prelude::*;

verus! {

/// A packed 32-bit RGBA color.
///
/// The channels are laid out in ABGR order: red in the lowest byte, alpha in the
/// highest. This is the layout handed as-is to the GPU in textures and vertices.
#[derive(Copy, Clone, PartialEq, Eq, PartialOrd, Ord, Hash, Debug, Structural)]
pub struct Color(pub u32);

/// The value of four channels packed in ABGR order.
pub open spec fn packed(r: u8, g: u8, b: u8, a: u8) -> u32 {
    (a as int * 0x100_0000 + b as int * 0x1_0000 + g as int * 0x100 + r as int) as u32
}

/// One channel blended over another with weight `a` out of 255.
pub open spec fn blend_spec(s: u8, d: u8, a: u8) -> u8 {
    ((s as int * a as int) / 255 + (d as int * (255 - a as int)) / 255) as u8
}

impl Color {
    pub open spec fn red(self) -> u8 {
        (self.0 as int % 0x100) as u8
    }

    pub open spec fn green(self) -> u8 {
        ((self.0 as int / 0x100) % 0x100) as u8
    }

    pub open spec fn blue(self) -> u8 {
        ((self.0 as int / 0x1_0000) % 0x100) as u8
    }

    pub open spec fn alpha(self) -> u8 {
        (self.0 as int / 0x100_0000) as u8
    }

    /// The result of a source-alpha blend of `src` over `dst`.
    pub open spec fn blended(src: Color, dst: Color) -> Color {
        if src.alpha() == 255 {
            src
        } else if src.alpha() == 0 {
            dst
        } else {
            Color(
                packed(
                    blend_spec(src.red(), dst.red(), src.alpha()),
                    blend_spec(src.green(), dst.green(), src.alpha()),
                    blend_spec(src.blue(), dst.blue(), src.alpha()),
                    dst.alpha(),
                ),
            )
        }
    }
}

proof fn lemma_packed_channels(r: u8, g: u8, b: u8, a: u8)
    ensures
        Color(packed(r, g, b, a)).red() == r,
        Color(packed(r, g, b, a)).green() == g,
        Color(packed(r, g, b, a)).blue() == b,
        Color(packed(r, g, b, a)).alpha() == a,
{
    let v = a as int * 0x100_0000 + b as int * 0x1_0000 + g as int * 0x100 + r as int;
    assert(0 <= v < 0x1_0000_0000);
    assert(packed(r, g, b, a) as int == v);
    assert(v % 0x100 == r) by (nonlinear_arith)
        requires v == a as int * 0x100_0000 + b as int * 0x1_0000 + g as int * 0x100 + r as int, r < 256;
    assert(v / 0x100 == a as int * 0x1_0000 + b as int * 0x100 + g as int) by (nonlinear_arith)
        requires v == a as int * 0x100_0000 + b as int * 0x1_0000 + g as int * 0x100 + r as int, r < 256, r >= 0;
    assert((a as int * 0x1_0000 + b as int * 0x100 + g as int) % 0x100 == g) by (nonlinear_arith)
        requires g < 256, g >= 0;
    assert(v / 0x1_0000 == a as int * 0x100 + b as int) by (nonlinear_arith)
        requires v == a as int * 0x100_0000 + b as int * 0x1_0000 + g as int * 0x100 + r as int,
            0 <= r < 256, 0 <= g < 256;
    assert((a as int * 0x100 + b as int) % 0x100 == b) by (nonlinear_arith)
        requires 0 <= b < 256;
    assert(v / 0x100_0000 == a) by (nonlinear_arith)
        requires v == a as int * 0x100_0000 + b as int * 0x1_0000 + g as int * 0x100 + r as int,
            0 <= r < 256, 0 <= g < 256, 0 <= b < 256;
}

fn shift(v: u8, n: u32) -> (r: u32)
    requires
        n < 32,
    ensures
        r == (v as u32) << n,
{
    (v as u32) << n
}

fn unshift(v: u32, n: u32) -> (r: u8)
    requires
        n < 32,
    ensures
        r == ((v >> n) & 0xff) as u8,
{
    ((v >> n) & 0xFF) as u8
}

impl Color {
    /// Builds a color from its four channels.
    pub fn from_u8(r: u8, g: u8, b: u8, a: u8) -> (c: Color)
        ensures
            c.0 == packed(r, g, b, a),
            c.red() == r,
            c.green() == g,
            c.blue() == b,
            c.alpha() == a,
    {
        let v = shift(a, 24) | shift(b, 16) | shift(g, 8) | shift(r, 0);
        assert(((a as u32) << 24) | ((b as u32) << 16) | ((g as u32) << 8) | ((r as u32) << 0)
            == (a as u32) * 0x100_0000 + (b as u32) * 0x1_0000 + (g as u32) * 0x100 + (r as u32))
            by (bit_vector);
        proof {
            lemma_packed_channels(r, g, b, a);
        }
        Color(v)
    }

    /// The four channels, in the order red, green, blue, alpha.
    pub fn to_u8(&self) -> (t: (u8, u8, u8, u8))
        ensures
            t == (self.red(), self.green(), self.blue(), self.alpha()),
    {
        let v = self.0;
        assert(((v >> 0) & 0xff) == v % 0x100) by (bit_vector);
        assert(((v >> 8) & 0xff) == (v / 0x100) % 0x100) by (bit_vector);
        assert(((v >> 16) & 0xff) == (v / 0x1_0000) % 0x100) by (bit_vector);
        assert(((v >> 24) & 0xff) == v / 0x100_0000) by (bit_vector);
        (unshift(v, 0), unshift(v, 8), unshift(v, 16), unshift(v, 24))
    }

    /// The four channels, in the order red, green, blue, alpha.
    pub fn as_u8(&self) -> (t: (u8, u8, u8, u8))
        ensures
            t == (self.red(), self.green(), self.blue(), self.alpha()),
    {
        self.to_u8()
    }

    /// The packed value.
    pub fn as_u32(&self) -> (v: u32)
        ensures
            v == self.0,
    {
        self.0
    }

    fn blend(s: u8, d: u8, a: u8) -> (r: u8)
        ensures
            r == blend_spec(s, d, a),
    {
        let s = s as u32;
        let d = d as u32;
        let a = a as u32;
        proof {
            lemma_blend_bound(s as int, d as int, a as int);
        }
        ((s * a / 255) + (d * (255 - a) / 255)) as u8
    }

    /// Blends `src` over `dst` by source alpha.
    ///
    /// An opaque source replaces the destination, a fully transparent one leaves it;
    /// otherwise each color channel is weighted by the source alpha and the
    /// destination keeps its alpha.
    pub fn blend_srcalpha(src: Color, dst: Color) -> (c: Color)
        ensures
            c == Color::blended(src, dst),
    {
        let (sr, sg, sb, sa) = src.as_u8();
        if sa == 255 {
            return src;
        }
        if sa == 0 {
            return dst;
        }
        let (dr, dg, db, da) = dst.as_u8();
        Color::from_u8(Color::blend(sr, dr, sa), Color::blend(sg, dg, sa), Color::blend(sb, db, sa), da)
    }

    /// Fully transparent black.
    pub fn none() -> (c: Color)
        ensures
            c.0 == 0,
    {
        Color(0)
    }

    /// Fully transparent black.
    pub fn transparent() -> (c: Color)
        ensures
            c.0 == 0,
    {
        Color(0)
    }

    /// Opaque black.
    pub fn black() -> (c: Color)
        ensures
            c.0 == 0xFF00_0000,
    {
        Color(0xFF00_0000)
    }

    /// Opaque white.
    pub fn white() -> (c: Color)
        ensures
            c.0 == 0xFFFF_FFFF,
    {
        Color(0xFFFF_FFFF)
    }

    /// An opaque color with random red, green and blue channels.
    pub fn random() -> (c: Color)
        ensures
            c.alpha() == 255,
    {
        let r = random_channel();
        let g = random_channel();
        let b = random_channel();
        Color::from_u8(r, g, b, 255)
    }
}

/// Relies on `rand::random::<u8>`, which draws from the thread-local generator;
/// nothing is promised of the value.
#[verifier::external_body]
fn random_channel() -> (v: u8) {
    rand::random::<u8>()
}

proof fn lemma_blend_bound(s: int, d: int, a: int)
    requires
        0 <= s < 256,
        0 <= d < 256,
        0 <= a < 256,
    ensures
        0 <= s * a <= 255 * 255,
        0 <= d * (255 - a) <= 255 * 255,
        (s * a) / 255 + (d * (255 - a)) / 255 <= 255,
{
    assert(0 <= s * a <= 255 * a) by (nonlinear_arith)
        requires 0 <= s < 256, 0 <= a < 256;
    assert(0 <= d * (255 - a) <= 255 * (255 - a)) by (nonlinear_arith)
        requires 0 <= d < 256, 0 <= a < 256;
    assert((s * a) / 255 <= a) by (nonlinear_arith)
        requires 0 <= s * a <= 255 * a;
    assert((d * (255 - a)) / 255 <= 255 - a) by (nonlinear_arith)
        requires 0 <= d * (255 - a) <= 255 * (255 - a);
}

impl From<u32> for Color {
    fn from(v: u32) -> (c: Color)
        ensures
            c.0 == v,
    {
        Color(v)
    }
}

impl vstd::std_specs::convert::FromSpecImpl<u32> for Color {
    open spec fn obeys_from_spec() -> bool {
        true
    }

    open spec fn from_spec(v: u32) -> Color {
        Color(v)
    }
}

impl From<(u8, u8, u8, u8)> for Color {
    fn from(v: (u8, u8, u8, u8)) -> (c: Color)
        ensures
            c.0 == packed(v.0, v.1, v.2, v.3),
    {
        Color::from_u8(v.0, v.1, v.2, v.3)
    }
}

impl vstd::std_specs::convert::FromSpecImpl<(u8, u8, u8, u8)> for Color {
    open spec fn obeys_from_spec() -> bool {
        true
    }

    open spec fn from_spec(v: (u8, u8, u8, u8)) -> Color {
        Color(packed(v.0, v.1, v.2, v.3))
    }
}

impl From<Color> for u32 {
    fn from(c: Color) -> (v: u32)
        ensures
            v == c.0,
    {
        c.0
    }
}

impl vstd::std_specs::convert::FromSpecImpl<Color> for u32 {
    open spec fn obeys_from_spec() -> bool {
        true
    }

    open spec fn from_spec(c: Color) -> u32 {
        c.0
    }
}

} // verus!
