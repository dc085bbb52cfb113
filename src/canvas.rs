use vstd::prelude::*;

use crate::color::{packed, Color};
use crate::geo::{PointAny, RectAny, SizeAny};

verus! {

/// The pixel at column `x` and row `y` of a row-major buffer `w` pixels wide.
pub open spec fn pixel_of(s: Seq<u32>, w: int, x: int, y: int) -> u32 {
    s[y * w + x]
}

/// Whether `(x, y)` lies in the box with top-left corner `(x0, y0)` and size `bw` by `bh`.
pub open spec fn in_box(x0: int, y0: int, bw: int, bh: int, x: int, y: int) -> bool {
    x0 <= x < x0 + bw && y0 <= y < y0 + bh
}

/// `after` is `before` with every pixel of a `w` by `h` image that `region` holds
/// set to `col`, and every other pixel kept.
pub open spec fn repainted(
    before: Seq<u32>,
    after: Seq<u32>,
    w: int,
    h: int,
    region: spec_fn(int, int) -> bool,
    col: u32,
) -> bool {
    &&& after.len() == before.len()
    &&& forall|x: int, y: int|
        0 <= x < w && 0 <= y < h ==> #[trigger] pixel_of(after, w, x, y) == if region(x, y) {
            col
        } else {
            pixel_of(before, w, x, y)
        }
}

/// The pixels of the outline of `r`: its first and last rows and columns.
pub open spec fn in_outline(r: RectAny<u32>, x: int, y: int) -> bool {
    &&& r.w > 0 && r.h > 0
    &&& in_box(r.x as int, r.y as int, r.w as int, r.h as int, x, y)
    &&& (y == r.y || y == r.y + r.h - 1 || x == r.x || x == r.x + r.w - 1)
}

proof fn lemma_index_unique(w: int, x1: int, y1: int, x2: int, y2: int)
    requires
        0 <= x1 < w,
        0 <= x2 < w,
        0 <= y1,
        0 <= y2,
    ensures
        (y1 * w + x1 == y2 * w + x2) <==> (x1 == x2 && y1 == y2),
{
    if y1 < y2 {
        assert(y1 * w + x1 < y2 * w + x2) by (nonlinear_arith)
            requires 0 <= x1 < w, 0 <= x2, y1 < y2;
    } else if y2 < y1 {
        assert(y2 * w + x2 < y1 * w + x1) by (nonlinear_arith)
            requires 0 <= x2 < w, 0 <= x1, y2 < y1;
    }
}

proof fn lemma_index_in_bounds(w: int, h: int, x: int, y: int)
    requires
        0 <= x < w,
        0 <= y < h,
    ensures
        0 <= y * w + x < w * h,
{
    assert(0 <= y * w + x < w * h) by (nonlinear_arith)
        requires 0 <= x < w, 0 <= y < h;
}

/// A CPU-side image: a row-major buffer of packed colors.
#[derive(Clone, Debug)]
pub struct Canvas {
    size: SizeAny<u32>,
    data: Vec<u32>,
    dirty: bool,
}

impl Canvas {
    pub closed spec fn spec_size(&self) -> SizeAny<u32> {
        self.size
    }

    /// The pixels, row after row.
    pub closed spec fn pixels(&self) -> Seq<u32> {
        self.data@
    }

    pub closed spec fn spec_dirty(&self) -> bool {
        self.dirty
    }

    pub open spec fn width(&self) -> int {
        self.spec_size().w as int
    }

    pub open spec fn height(&self) -> int {
        self.spec_size().h as int
    }

    /// The pixel at `(x, y)`.
    pub open spec fn pixel(&self, x: int, y: int) -> u32 {
        pixel_of(self.pixels(), self.width(), x, y)
    }

    /// The buffer holds one pixel per position.
    pub open spec fn well_sized(&self) -> bool {
        self.pixels().len() == self.width() * self.height()
    }

    /// Creates a canvas of the given size, every pixel set to `clear_col`, or to
    /// zero where no color is given. The canvas starts dirty.
    pub fn new(size: SizeAny<u32>, clear_col: Option<Color>) -> (c: Canvas)
        requires
            size.w as int * size.h as int <= usize::MAX,
        ensures
            c.spec_size() == size,
            c.well_sized(),
            c.spec_dirty(),
            forall|i: int|
                0 <= i < c.pixels().len() ==> #[trigger] c.pixels()[i] == match clear_col {
                    Some(col) => col.0,
                    None => 0u32,
                },
    {
        let len = size.w as usize * size.h as usize;
        let v: u32 = match clear_col {
            Some(col) => col.as_u32(),
            None => 0,
        };
        let mut data: Vec<u32> = Vec::with_capacity(len);
        let mut i: usize = 0;
        while i < len
            invariant
                i <= len,
                data@.len() == i,
                forall|j: int| 0 <= j < i ==> #[trigger] data@[j] == v,
            decreases len - i,
        {
            data.push(v);
            i = i + 1;
        }
        Canvas { size, data, dirty: true }
    }

    pub fn size(&self) -> (s: SizeAny<u32>)
        ensures
            s == self.spec_size(),
    {
        self.size
    }

    /// The pixels, row after row: the pixel at `(x, y)` has index `y * width + x`.
    pub fn data(&self) -> (d: &Vec<u32>)
        ensures
            d@ == self.pixels(),
    {
        &self.data
    }

    pub fn dirty(&self) -> (d: bool)
        ensures
            d == self.spec_dirty(),
    {
        self.dirty
    }

    pub fn set_dirty(&mut self, dirty: bool)
        ensures
            final(self).spec_dirty() == dirty,
            final(self).spec_size() == old(self).spec_size(),
            final(self).pixels() == old(self).pixels(),
    {
        self.dirty = dirty;
    }

    /// Sets every pixel to `col` and marks the canvas dirty.
    pub fn clear(&mut self, col: Color)
        requires
            old(self).well_sized(),
        ensures
            final(self).well_sized(),
            final(self).spec_dirty(),
            final(self).spec_size() == old(self).spec_size(),
            final(self).pixels().len() == old(self).pixels().len(),
            forall|i: int|
                0 <= i < final(self).pixels().len() ==> #[trigger] final(self).pixels()[i] == col.0,
    {
        let n = self.data.len();
        let mut i: usize = 0;
        while i < n
            invariant
                i <= n,
                self.data@.len() == n,
                self.size == old(self).size,
                n == old(self).data@.len(),
                forall|j: int| 0 <= j < i ==> #[trigger] self.data@[j] == col.0,
            decreases n - i,
        {
            self.data.set(i, col.0);
            i = i + 1;
        }
        self.dirty = true;
    }

    fn pos_valid(&self, p: PointAny<u32>) -> (b: bool)
        ensures
            b == (p.x < self.width() && p.y < self.height()),
    {
        p.x < self.size.w && p.y < self.size.h
    }

    fn pos_to_index(&self, p: PointAny<u32>) -> (i: usize)
        requires
            self.well_sized(),
            p.x < self.width(),
            p.y < self.height(),
        ensures
            i == p.y * self.width() + p.x,
            i < self.pixels().len(),
    {
        let total = self.data.len();
        proof {
            lemma_index_in_bounds(self.width(), self.height(), p.x as int, p.y as int);
            assert(p.y * self.width() <= p.y * self.width() + p.x);
        }
        p.y as usize * self.size.w as usize + p.x as usize
    }

    /// The color at `p`, or `None` where `p` lies outside the canvas.
    pub fn get_pixel(&mut self, p: PointAny<u32>) -> (c: Option<Color>)
        requires
            old(self).well_sized(),
        ensures
            *final(self) == *old(self),
            c == if p.x < old(self).width() && p.y < old(self).height() {
                Some(Color(old(self).pixel(p.x as int, p.y as int)))
            } else {
                None
            },
    {
        if self.pos_valid(p) {
            let pos = self.pos_to_index(p);
            Some(Color(self.data[pos]))
        } else {
            None
        }
    }

    /// Sets the pixel at `p` and marks the canvas dirty; does nothing where `p` lies
    /// outside the canvas.
    pub fn set_pixel(&mut self, p: PointAny<u32>, col: Color)
        requires
            old(self).well_sized(),
        ensures
            final(self).well_sized(),
            final(self).spec_size() == old(self).spec_size(),
            repainted(
                old(self).pixels(),
                final(self).pixels(),
                old(self).width(),
                old(self).height(),
                |x: int, y: int| x == p.x && y == p.y,
                col.0,
            ),
            final(self).spec_dirty() == (old(self).spec_dirty() || (p.x < old(self).width()
                && p.y < old(self).height())),
    {
        if self.pos_valid(p) {
            let pos = self.pos_to_index(p);
            self.data.set(pos, col.0);
            self.dirty = true;
            proof {
                let w = self.width();
                assert forall|x: int, y: int| 0 <= x < w && 0 <= y < self.height() implies
                    #[trigger] pixel_of(self.data@, w, x, y) == if x == p.x && y == p.y {
                        col.0
                    } else {
                        pixel_of(old(self).data@, w, x, y)
                    } by {
                    lemma_index_unique(w, x, y, p.x as int, p.y as int);
                    lemma_index_in_bounds(w, self.height(), x, y);
                }
            }
        }
    }

    /// Draws `w` pixels to the right of `p`, clipped to the canvas.
    pub fn hline(&mut self, p: PointAny<u32>, w: u32, col: Color)
        requires
            old(self).well_sized(),
        ensures
            final(self).well_sized(),
            final(self).spec_size() == old(self).spec_size(),
            final(self).spec_dirty() == old(self).spec_dirty(),
            repainted(
                old(self).pixels(),
                final(self).pixels(),
                old(self).width(),
                old(self).height(),
                |x: int, y: int| in_box(p.x as int, p.y as int, w as int, 1, x, y),
                col.0,
            ),
    {
        if p.x >= self.size.w || p.y >= self.size.h {
            return;
        }
        let mut n = w;
        if p.x as u64 + w as u64 > self.size.w as u64 {
            n = self.size.w - p.x;
        }
        let pos = self.pos_to_index(p);
        let total = self.data.len();
        let ghost cw = self.width();
        let ghost ch = self.height();
        let mut i: u32 = 0;
        while i < n
            invariant
                self.well_sized(),
                self.size == old(self).size,
                self.dirty == old(self).dirty,
                cw == self.width(),
                ch == self.height(),
                pos == p.y * cw + p.x,
                total == self.data@.len(),
                p.x < cw,
                p.y < ch,
                i <= n,
                p.x + n <= cw,
                n <= w,
                forall|x: int, y: int|
                    0 <= x < cw && 0 <= y < ch ==> #[trigger] pixel_of(self.data@, cw, x, y)
                        == if in_box(p.x as int, p.y as int, i as int, 1, x, y) {
                        col.0
                    } else {
                        pixel_of(old(self).data@, cw, x, y)
                    },
            decreases n - i,
        {
            proof {
                lemma_index_in_bounds(cw, ch, p.x + i, p.y as int);
            }
            let ghost prev = self.data@;
            self.data.set(pos + i as usize, col.0);
            proof {
                assert forall|x: int, y: int| 0 <= x < cw && 0 <= y < ch implies
                    #[trigger] pixel_of(self.data@, cw, x, y) == if in_box(
                        p.x as int,
                        p.y as int,
                        i + 1,
                        1,
                        x,
                        y,
                    ) {
                        col.0
                    } else {
                        pixel_of(old(self).data@, cw, x, y)
                    } by {
                    lemma_index_unique(cw, x, y, p.x + i, p.y as int);
                    lemma_index_in_bounds(cw, ch, x, y);
                    assert(pixel_of(prev, cw, x, y) == prev[y * cw + x]);
                }
            }
            i = i + 1;
        }
    }

    /// Draws `h` pixels downwards from `p`, clipped to the canvas.
    pub fn vline(&mut self, p: PointAny<u32>, h: u32, col: Color)
        requires
            old(self).well_sized(),
        ensures
            final(self).well_sized(),
            final(self).spec_size() == old(self).spec_size(),
            final(self).spec_dirty() == old(self).spec_dirty(),
            repainted(
                old(self).pixels(),
                final(self).pixels(),
                old(self).width(),
                old(self).height(),
                |x: int, y: int| in_box(p.x as int, p.y as int, 1, h as int, x, y),
                col.0,
            ),
    {
        if p.x >= self.size.w || p.y >= self.size.h {
            return;
        }
        let mut n = h;
        if p.y as u64 + h as u64 > self.size.h as u64 {
            n = self.size.h - p.y;
        }
        let ghost cw = self.width();
        let ghost ch = self.height();
        let mut i: u32 = 0;
        while i < n
            invariant
                self.well_sized(),
                self.size == old(self).size,
                self.dirty == old(self).dirty,
                cw == self.width(),
                ch == self.height(),
                p.x < cw,
                p.y < ch,
                i <= n,
                p.y + n <= ch,
                n <= h,
                forall|x: int, y: int|
                    0 <= x < cw && 0 <= y < ch ==> #[trigger] pixel_of(self.data@, cw, x, y)
                        == if in_box(p.x as int, p.y as int, 1, i as int, x, y) {
                        col.0
                    } else {
                        pixel_of(old(self).data@, cw, x, y)
                    },
            decreases n - i,
        {
            let pos = self.pos_to_index(PointAny::new(p.x, p.y + i));
            let ghost prev = self.data@;
            self.data.set(pos, col.0);
            proof {
                assert forall|x: int, y: int| 0 <= x < cw && 0 <= y < ch implies
                    #[trigger] pixel_of(self.data@, cw, x, y) == if in_box(
                        p.x as int,
                        p.y as int,
                        1,
                        i + 1,
                        x,
                        y,
                    ) {
                        col.0
                    } else {
                        pixel_of(old(self).data@, cw, x, y)
                    } by {
                    lemma_index_unique(cw, x, y, p.x as int, p.y + i);
                    lemma_index_in_bounds(cw, ch, x, y);
                    assert(pixel_of(prev, cw, x, y) == prev[y * cw + x]);
                }
            }
            i = i + 1;
        }
    }

    /// Draws the outline of `r`, clipped to the canvas.
    pub fn rect(&mut self, r: RectAny<u32>, col: Color)
        requires
            old(self).well_sized(),
        ensures
            final(self).well_sized(),
            final(self).spec_size() == old(self).spec_size(),
            final(self).spec_dirty() == old(self).spec_dirty(),
            repainted(
                old(self).pixels(),
                final(self).pixels(),
                old(self).width(),
                old(self).height(),
                |x: int, y: int| in_outline(r, x, y),
                col.0,
            ),
    {
        if r.w == 0 || r.h == 0 {
            return;
        }
        let tl = r.pos();
        self.hline(tl, r.w, col);
        if r.y as u64 + r.h as u64 - 1 <= u32::MAX as u64 {
            self.hline(PointAny::new(r.x, r.y + (r.h - 1)), r.w, col);
        }
        self.vline(tl, r.h, col);
        if r.x as u64 + r.w as u64 - 1 <= u32::MAX as u64 {
            self.vline(PointAny::new(r.x + (r.w - 1), r.y), r.h, col);
        }
    }

    /// Fills `r`, clipped to the canvas.
    pub fn rect_fill(&mut self, r: RectAny<u32>, col: Color)
        requires
            old(self).well_sized(),
        ensures
            final(self).well_sized(),
            final(self).spec_size() == old(self).spec_size(),
            final(self).spec_dirty() == old(self).spec_dirty(),
            repainted(
                old(self).pixels(),
                final(self).pixels(),
                old(self).width(),
                old(self).height(),
                |x: int, y: int| in_box(r.x as int, r.y as int, r.w as int, r.h as int, x, y),
                col.0,
            ),
    {
        if r.w == 0 || r.h == 0 || r.x >= self.size.w || r.y >= self.size.h {
            return;
        }
        let mut w = r.w;
        let mut h = r.h;
        if r.x as u64 + w as u64 > self.size.w as u64 {
            w = self.size.w - r.x;
        }
        if r.y as u64 + h as u64 > self.size.h as u64 {
            h = self.size.h - r.y;
        }
        let ghost cw = self.width();
        let ghost ch = self.height();
        let end = r.y + h;
        let mut y = r.y;
        while y < end
            invariant
                self.well_sized(),
                self.size == old(self).size,
                self.dirty == old(self).dirty,
                cw == self.width(),
                ch == self.height(),
                r.y <= y <= end,
                end == r.y + h,
                end <= ch,
                r.x + w <= cw,
                w <= r.w,
                h <= r.h,
                forall|x: int, yy: int|
                    0 <= x < cw && 0 <= yy < ch ==> #[trigger] pixel_of(self.data@, cw, x, yy)
                        == if in_box(r.x as int, r.y as int, w as int, y - r.y, x, yy) {
                        col.0
                    } else {
                        pixel_of(old(self).data@, cw, x, yy)
                    },
            decreases end - y,
        {
            self.hline(PointAny::new(r.x, y), w, col);
            y = y + 1;
        }
    }

    /// A canvas of `w` by `h` pixels from RGBA pixels in row-major order; pixels
    /// past the first `w * h` are ignored.
    pub fn from_rgba(w: usize, h: usize, px: &Vec<(u8, u8, u8, u8)>) -> (c: Canvas)
        requires
            w <= u32::MAX,
            h <= u32::MAX,
            w * h <= px@.len(),
        ensures
            c.spec_size() == (SizeAny { w: w as u32, h: h as u32 }),
            c.well_sized(),
            c.spec_dirty(),
            forall|i: int|
                0 <= i < w * h ==> #[trigger] c.pixels()[i] == packed(
                    px@[i].0,
                    px@[i].1,
                    px@[i].2,
                    px@[i].3,
                ),
    {
        let _n = px.len();
        let len = w * h;
        let mut data: Vec<u32> = Vec::with_capacity(len);
        let mut i: usize = 0;
        while i < len
            invariant
                i <= len,
                len == w * h,
                len <= px@.len(),
                data@.len() == i,
                forall|j: int|
                    0 <= j < i ==> #[trigger] data@[j] == packed(
                        px@[j].0,
                        px@[j].1,
                        px@[j].2,
                        px@[j].3,
                    ),
            decreases len - i,
        {
            let (r, g, b, a) = px[i];
            data.push(Color::from_u8(r, g, b, a).as_u32());
            i = i + 1;
        }
        Canvas { size: SizeAny::new(w as u32, h as u32), data, dirty: true }
    }

    /// Decodes a PNG image held in memory into a canvas, or returns the decoder's
    /// error message.
    pub fn from_memory(data: &[u8]) -> (r: Result<Canvas, String>)
        ensures
            match png_rgba(data@) {
                Ok((w, h, px)) => r matches Ok(c) && {
                    &&& c.spec_size() == (SizeAny { w: w as u32, h: h as u32 })
                    &&& c.well_sized()
                    &&& c.spec_dirty()
                    &&& forall|i: int|
                        0 <= i < w * h ==> #[trigger] c.pixels()[i] == packed(
                            px[i].0,
                            px[i].1,
                            px[i].2,
                            px[i].3,
                        )
                },
                Err(e) => r matches Err(m) && m@ == e,
            },
    {
        match decode_png(data) {
            Ok((w, h, px)) => Ok(Canvas::from_rgba(w, h, &px)),
            Err(e) => Err(e),
        }
    }
}

/// What `lodepng::decode32` makes of the bytes of a PNG image: its width, height
/// and RGBA pixels, or the message of its error.
pub uninterp spec fn png_rgba(data: Seq<u8>) -> Result<(usize, usize, Seq<(u8, u8, u8, u8)>), Seq<char>>;

/// Relies on `lodepng::decode32`, which decodes a PNG image held in memory into
/// 8-bit RGBA pixels. On success its bitmap holds at least `width * height`
/// pixels, and both dimensions come from 32-bit values.
#[verifier::external_body]
fn decode_png(data: &[u8]) -> (r: Result<(usize, usize, Vec<(u8, u8, u8, u8)>), String>)
    ensures
        match r {
            Ok((w, h, px)) => {
                &&& png_rgba(data@) == Ok::<_, Seq<char>>((w, h, px@))
                &&& w <= u32::MAX
                &&& h <= u32::MAX
                &&& w * h <= px@.len()
            },
            Err(e) => png_rgba(data@) == Err::<(usize, usize, Seq<(u8, u8, u8, u8)>), _>(e@),
        },
{
    match lodepng::decode32(data) {
        Ok(img) => Ok((img.width, img.height, img.buffer.iter().map(|p| (p.r, p.g, p.b, p.a)).collect())),
        Err(e) => Err(e.to_string()),
    }
}

} // verus!
