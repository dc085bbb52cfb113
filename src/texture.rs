use std::sync::Arc;

use vstd::prelude::*;

use crate::canvas::Canvas;
use crate::geo::{RectAny, SizeAny};
use crate::tex2d::{TexFilters, Texture2D};

verus! {

/// The texture coordinates of a texture's region, as exact fractions of its root
/// image: `u = x / w` and `v = y / h`, from the top-left corner `(x1, y1)` to the
/// bottom-right corner `(x2, y2)`.
#[derive(Copy, Clone, PartialEq, Eq, Debug, Structural)]
pub struct UvRect {
    pub x1: u64,
    pub y1: u64,
    pub x2: u64,
    pub y2: u64,
    pub w: u32,
    pub h: u32,
}

#[derive(Debug)]
struct RawTex {
    tex: Texture2D,
    size: SizeAny<u32>,
}

#[derive(Debug)]
struct SubTex {
    parent: Arc<TexType>,
    r: RectAny<u32>,
}

#[derive(Debug)]
enum TexType {
    Raw(RawTex),
    Sub(SubTex),
}

spec fn underlying_of(t: TexType) -> Texture2D
    decreases t,
{
    match t {
        TexType::Raw(raw) => raw.tex,
        TexType::Sub(sub) => underlying_of(*sub.parent),
    }
}

spec fn size_of(t: TexType) -> SizeAny<u32> {
    match t {
        TexType::Raw(raw) => raw.size,
        TexType::Sub(sub) => SizeAny { w: sub.r.w, h: sub.r.h },
    }
}

spec fn root_size_of(t: TexType) -> SizeAny<u32>
    decreases t,
{
    match t {
        TexType::Raw(raw) => raw.size,
        TexType::Sub(sub) => root_size_of(*sub.parent),
    }
}

/// Where the region starts in the pixels of the root image.
spec fn origin_of(t: TexType) -> (int, int)
    decreases t,
{
    match t {
        TexType::Raw(_) => (0, 0),
        TexType::Sub(sub) => {
            let p = origin_of(*sub.parent);
            (p.0 + sub.r.x, p.1 + sub.r.y)
        },
    }
}

impl TexType {
    fn get_underlying(&self) -> (t: &Texture2D)
        ensures
            *t == underlying_of(*self),
        decreases *self,
    {
        match self {
            TexType::Raw(raw) => &raw.tex,
            TexType::Sub(sub) => sub.parent.get_underlying(),
        }
    }

    fn get_size(&self) -> (s: SizeAny<u32>)
        ensures
            s == size_of(*self),
    {
        match self {
            TexType::Raw(raw) => raw.size,
            TexType::Sub(sub) => sub.r.size(),
        }
    }
}

impl TexType {
    fn get_origin(&self) -> (o: Option<(u64, u64)>)
        ensures
            match o {
                Some(p) => p.0 == origin_of(*self).0 && p.1 == origin_of(*self).1,
                None => origin_of(*self).0 > u64::MAX || origin_of(*self).1 > u64::MAX,
            },
            origin_of(*self).0 >= 0,
            origin_of(*self).1 >= 0,
        decreases *self,
    {
        match self {
            TexType::Raw(_) => Some((0, 0)),
            TexType::Sub(sub) => {
                let p = sub.parent.get_origin();
                match p {
                    Some((px, py)) => {
                        if px > u64::MAX - sub.r.x as u64 || py > u64::MAX - sub.r.y as u64 {
                            None
                        } else {
                            Some((px + sub.r.x as u64, py + sub.r.y as u64))
                        }
                    },
                    None => None,
                }
            },
        }
    }

    fn get_root_size(&self) -> (s: SizeAny<u32>)
        ensures
            s == root_size_of(*self),
        decreases *self,
    {
        match self {
            TexType::Raw(raw) => raw.size,
            TexType::Sub(sub) => sub.parent.get_root_size(),
        }
    }
}

/// A shared handle to image data on the GPU: either a whole image, or a region of
/// another texture that shares its pixels.
///
/// Two handles are equal when they resolve to the same image object, whatever
/// region each covers.
#[derive(Debug)]
pub struct Texture(Arc<TexType>);

impl Texture {
    /// The image object that binding this texture binds.
    pub closed spec fn spec_underlying(&self) -> Texture2D {
        underlying_of(*self.0)
    }

    /// The size of the region in pixels.
    pub closed spec fn spec_size(&self) -> SizeAny<u32> {
        size_of(*self.0)
    }

    /// The size of the whole root image.
    pub closed spec fn root_size(&self) -> SizeAny<u32> {
        root_size_of(*self.0)
    }

    /// The top-left corner of the region, in pixels of the root image.
    pub closed spec fn origin(&self) -> (int, int) {
        origin_of(*self.0)
    }

    /// Whether the corners of the region fit in 64 bits.
    pub open spec fn uv_fits(&self) -> bool {
        self.origin().0 + self.spec_size().w <= u64::MAX && self.origin().1 + self.spec_size().h
            <= u64::MAX
    }

    /// Wraps the image object named `id`, into which the pixels of `cnv` are
    /// uploaded, as a whole texture sampled with nearest-neighbour filters.
    pub fn from_canvas(cnv: &Canvas, id: u32) -> (t: Texture)
        ensures
            t.spec_underlying().spec_id() == id,
            t.spec_underlying().spec_filters() == TexFilters::NearestNearest,
            t.spec_size() == cnv.spec_size(),
            t.root_size() == cnv.spec_size(),
            t.origin() == (0int, 0int),
    {
        let raw = RawTex { tex: Texture2D::new(id, TexFilters::NearestNearest), size: cnv.size() };
        Texture(Arc::new(TexType::Raw(raw)))
    }

    /// A texture of the region `r` of this one, sharing its pixels.
    ///
    /// `r` is not checked against the size of this texture.
    pub fn sub(&self, r: &RectAny<u32>) -> (t: Texture)
        ensures
            t.spec_underlying() == self.spec_underlying(),
            t.spec_size() == r.size_spec(),
            t.root_size() == self.root_size(),
            t.origin() == (self.origin().0 + r.x, self.origin().1 + r.y),
    {
        let sub = SubTex { parent: Arc::clone(&self.0), r: *r };
        Texture(Arc::new(TexType::Sub(sub)))
    }

    /// The size of the region in pixels.
    pub fn size(&self) -> (s: SizeAny<u32>)
        ensures
            s == self.spec_size(),
    {
        self.0.get_size()
    }

    /// The image object that binding this texture binds.
    pub fn get_underlying(&self) -> (t: &Texture2D)
        ensures
            *t == self.spec_underlying(),
    {
        self.0.get_underlying()
    }

    /// The texture coordinates of the region, or `None` where its corners do not
    /// fit in 64 bits.
    pub fn get_uv(&self) -> (uv: Option<UvRect>)
        ensures
            uv is Some <==> self.uv_fits(),
            uv matches Some(c) ==> {
                &&& c.x1 == self.origin().0
                &&& c.y1 == self.origin().1
                &&& c.x2 == self.origin().0 + self.spec_size().w
                &&& c.y2 == self.origin().1 + self.spec_size().h
                &&& c.w == self.root_size().w
                &&& c.h == self.root_size().h
            },
    {
        let size = self.0.get_size();
        let root = self.0.get_root_size();
        match self.0.get_origin() {
            Some((x, y)) => {
                if x > u64::MAX - size.w as u64 || y > u64::MAX - size.h as u64 {
                    None
                } else {
                    Some(UvRect { x1: x, y1: y, x2: x + size.w as u64, y2: y + size.h as u64, w: root.w, h: root.h })
                }
            },
            None => None,
        }
    }
}

impl Clone for Texture {
    /// Another handle to the same texture.
    fn clone(&self) -> (t: Texture)
        ensures
            t == *self,
    {
        Texture(Arc::clone(&self.0))
    }
}

impl PartialEq for Texture {
    fn eq(&self, rhs: &Texture) -> (r: bool)
        ensures
            r == (self.spec_underlying().spec_id() == rhs.spec_underlying().spec_id()),
    {
        *self.get_underlying() == *rhs.get_underlying()
    }
}

impl vstd::std_specs::cmp::PartialEqSpecImpl for Texture {
    open spec fn obeys_eq_spec() -> bool {
        true
    }

    open spec fn eq_spec(&self, rhs: &Texture) -> bool {
        self.spec_underlying().spec_id() == rhs.spec_underlying().spec_id()
    }
}

/// Whether two optional textures select the same image: both absent, or both
/// present and equal.
pub open spec fn same_texture(a: Option<Texture>, b: Option<Texture>) -> bool {
    match (a, b) {
        (None, None) => true,
        (Some(x), Some(y)) => x.spec_underlying().spec_id() == y.spec_underlying().spec_id(),
        _ => false,
    }
}

/// Whether two optional textures select the same image.
pub fn texture_eq(a: &Option<Texture>, b: &Option<Texture>) -> (r: bool)
    ensures
        r == same_texture(*a, *b),
{
    match (a, b) {
        (None, None) => true,
        (Some(x), Some(y)) => x.get_underlying().id() == y.get_underlying().id(),
        _ => false,
    }
}

} // verus!
