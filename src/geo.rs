use vstd::prelude::*;

verus! {

/// A width and a height.
#[derive(Copy, Clone, PartialEq, Eq, Debug, Structural)]
pub struct SizeAny<T: Copy> {
    pub w: T,
    pub h: T,
}

pub type SizeU32 = SizeAny<u32>;

impl<T: Copy> SizeAny<T> {
    pub fn new(w: T, h: T) -> (s: Self)
        ensures
            s.w == w,
            s.h == h,
    {
        SizeAny { w, h }
    }
}

/// A rectangle given by its top-left corner and its size.
///
/// Borders lie between pixels: a rectangle covers the columns `x .. x + w` and
/// the rows `y .. y + h`.
#[derive(Copy, Clone, PartialEq, Eq, Debug, Structural)]
pub struct RectAny<T: Copy> {
    pub x: T,
    pub y: T,
    pub w: T,
    pub h: T,
}

pub type RectU32 = RectAny<u32>;

/// A position.
#[derive(Copy, Clone, PartialEq, Eq, Debug, Structural)]
pub struct PointAny<T: Copy> {
    pub x: T,
    pub y: T,
}

pub type PointU32 = PointAny<u32>;

impl<T: Copy> PointAny<T> {
    pub fn new(x: T, y: T) -> (p: Self)
        ensures
            p.x == x,
            p.y == y,
    {
        PointAny { x, y }
    }
}

impl<T: Copy> From<SizeAny<T>> for PointAny<T> {
    /// The point as far from the origin as the size reaches.
    fn from(v: SizeAny<T>) -> (p: PointAny<T>)
        ensures
            p.x == v.w,
            p.y == v.h,
    {
        PointAny { x: v.w, y: v.h }
    }
}

impl<T: Copy> vstd::std_specs::convert::FromSpecImpl<SizeAny<T>> for PointAny<T> {
    open spec fn obeys_from_spec() -> bool {
        true
    }

    open spec fn from_spec(v: SizeAny<T>) -> PointAny<T> {
        PointAny { x: v.w, y: v.h }
    }
}

impl<T: Copy> RectAny<T> {
    pub open spec fn size_spec(self) -> SizeAny<T> {
        SizeAny { w: self.w, h: self.h }
    }

    pub fn new(x: T, y: T, w: T, h: T) -> (r: Self)
        ensures
            r.x == x,
            r.y == y,
            r.w == w,
            r.h == h,
    {
        RectAny { x, y, w, h }
    }

    /// The top-left corner.
    pub fn pos(&self) -> (p: PointAny<T>)
        ensures
            p.x == self.x,
            p.y == self.y,
    {
        PointAny::new(self.x, self.y)
    }

    pub fn size(&self) -> (s: SizeAny<T>)
        ensures
            s.w == self.w,
            s.h == self.h,
    {
        SizeAny::new(self.w, self.h)
    }
}

impl RectAny<u32> {
    /// One past the last column.
    pub open spec fn right(self) -> int {
        self.x + self.w
    }

    /// One past the last row.
    pub open spec fn bottom(self) -> int {
        self.y + self.h
    }

    pub open spec fn contains_spec(self, p: PointAny<u32>) -> bool {
        self.x <= p.x < self.right() && self.y <= p.y < self.bottom()
    }

    pub open spec fn contains_all_spec(self, inner: RectAny<u32>) -> bool {
        inner.x >= self.x && inner.y >= self.y && inner.right() <= self.right()
            && inner.bottom() <= self.bottom()
    }

    /// `other` lies wholly outside; touching borders do not overlap.
    pub open spec fn contains_none_spec(self, other: RectAny<u32>) -> bool {
        other.x >= self.right() || other.y >= self.bottom() || other.right() <= self.x
            || other.bottom() <= self.y
    }

    /// What `clip` returns: the part of `other` inside `self`, and the offset of
    /// that part within `other`; nothing when `self` or `other` has no width or
    /// when they do not overlap.
    pub open spec fn clip_spec(self, other: RectAny<u32>) -> Option<(RectAny<u32>, PointAny<u32>)> {
        if self.w == 0 || other.w == 0 || self.contains_none_spec(other) {
            None
        } else {
            let x = if other.x < self.x { self.x } else { other.x };
            let y = if other.y < self.y { self.y } else { other.y };
            let r = if other.right() > self.right() { self.right() } else { other.right() };
            let b = if other.bottom() > self.bottom() { self.bottom() } else { other.bottom() };
            Some((
                RectAny { x, y, w: (r - x) as u32, h: (b - y) as u32 },
                PointAny { x: (x - other.x) as u32, y: (y - other.y) as u32 },
            ))
        }
    }

    /// Whether the point lies inside.
    pub fn contains(&self, p: PointAny<u32>) -> (b: bool)
        ensures
            b == self.contains_spec(p),
    {
        p.x >= self.x && p.y >= self.y && (p.x as u64) < self.x as u64 + self.w as u64
            && (p.y as u64) < self.y as u64 + self.h as u64
    }

    /// Whether `inner` fits wholly inside.
    pub fn contains_all(&self, inner: &Self) -> (b: bool)
        ensures
            b == self.contains_all_spec(*inner),
    {
        inner.x >= self.x && inner.y >= self.y && inner.x as u64 + inner.w as u64 <= self.x as u64
            + self.w as u64 && inner.y as u64 + inner.h as u64 <= self.y as u64 + self.h as u64
    }

    /// Whether `other` lies wholly outside.
    pub fn contains_none(&self, other: &Self) -> (b: bool)
        ensures
            b == self.contains_none_spec(*other),
    {
        other.x as u64 >= self.x as u64 + self.w as u64 || other.y as u64 >= self.y as u64
            + self.h as u64 || other.x as u64 + other.w as u64 <= self.x as u64 || other.y as u64
            + other.h as u64 <= self.y as u64
    }

    /// Whether the two rectangles overlap.
    pub fn intersects(&self, other: &Self) -> (b: bool)
        ensures
            b == !self.contains_none_spec(*other),
    {
        !self.contains_none(other)
    }

    /// Clips `other` so that it fits within `self`.
    ///
    /// Returns the clipped rectangle and its offset within `other`, or `None` when
    /// nothing of `other` is inside.
    pub fn clip(&self, other: &Self) -> (c: Option<(Self, PointAny<u32>)>)
        ensures
            c == self.clip_spec(*other),
    {
        if self.w == 0 || other.w == 0 || self.contains_none(other) {
            None
        } else {
            let self_r: u64 = self.x as u64 + self.w as u64;
            let self_b: u64 = self.y as u64 + self.h as u64;
            let mut x: u64 = other.x as u64;
            let mut y: u64 = other.y as u64;
            let mut w: u64 = other.w as u64;
            let mut h: u64 = other.h as u64;

            if x < self.x as u64 {
                w = w - (self.x as u64 - x);
                x = self.x as u64;
            }
            if y < self.y as u64 {
                h = h - (self.y as u64 - y);
                y = self.y as u64;
            }
            if x + w > self_r {
                w = self_r - x;
            }
            if y + h > self_b {
                h = self_b - y;
            }

            let r = RectAny::new(x as u32, y as u32, w as u32, h as u32);
            let p = PointAny::new((x - other.x as u64) as u32, (y - other.y as u64) as u32);
            Some((r, p))
        }
    }
}

} // verus!
