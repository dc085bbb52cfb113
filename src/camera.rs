use vstd::prelude::*;

use crate::event::Event;
use crate::geo::SizeAny;

verus! {

/// How the camera's resolution is fit onto the viewport.
#[derive(Copy, Clone, PartialEq, Eq, Debug, Structural)]
pub enum StretchMode {
    /// Use the whole viewport at one pixel per unit; the resolution follows the
    /// viewport.
    NoStretch,
    /// Stretch to fill the viewport, ignoring the aspect ratio.
    Fill,
    /// Fill as much of the viewport as the aspect ratio `w : h` allows, centered.
    KeepAspect(u32, u32),
}

impl Default for StretchMode {
    fn default() -> (m: StretchMode)
        ensures
            m == StretchMode::NoStretch,
    {
        StretchMode::NoStretch
    }
}

/// An orthographic projection, given by the planes that bound its view volume.
///
/// It maps `x` from `left .. right` onto `-1 .. 1`, `y` from `bottom .. top` onto
/// `-1 .. 1`, and depth from `near .. far` onto `-1 .. 1`.
#[derive(Copy, Clone, PartialEq, Eq, Debug, Structural)]
pub struct Ortho {
    pub left: i64,
    pub right: i64,
    pub bottom: i64,
    pub top: i64,
    pub near: i64,
    pub far: i64,
}

/// The projection `o` maps the point `(x, y)` to the clip-space point `(cx, cy)`.
pub open spec fn maps_to(o: Ortho, x: int, y: int, cx: int, cy: int) -> bool {
    &&& 2 * x - (o.right + o.left) == cx * (o.right - o.left)
    &&& 2 * y - (o.top + o.bottom) == cy * (o.top - o.bottom)
}

/// The projection for a viewport of size `vp`: the origin at the top-left corner,
/// `y` growing downwards, and depth from 1 to -1.
pub open spec fn viewport_projection(vp: SizeAny<u32>) -> Ortho {
    Ortho { left: 0i64, right: vp.w as i64, bottom: vp.h as i64, top: 0i64, near: 1i64, far: -1i64 }
}

/// A view onto the scene: a stretch mode, a transform `X` applied to everything
/// drawn through it, a viewport size, and the projection kept for that size.
#[derive(Copy, Clone, Debug)]
pub struct Camera<X> {
    stretch: StretchMode,
    transform: X,
    vp_size: SizeAny<u32>,
    proj: Option<Ortho>,
}

impl<X: Copy> Camera<X> {
    pub closed spec fn spec_stretch(&self) -> StretchMode {
        self.stretch
    }

    pub closed spec fn spec_transform(&self) -> X {
        self.transform
    }

    pub closed spec fn spec_vp_size(&self) -> SizeAny<u32> {
        self.vp_size
    }

    /// The projection, once a viewport size or stretch mode has been set.
    pub closed spec fn spec_proj(&self) -> Option<Ortho> {
        self.proj
    }

    /// The projection is set only by a change, and always matches the viewport.
    pub open spec fn wf(&self) -> bool {
        self.spec_proj() matches Some(p) ==> p == viewport_projection(self.spec_vp_size())
    }

    /// A camera with the given transform, no stretching, a 480 by 270 viewport and
    /// no projection yet.
    pub fn new(transform: X) -> (c: Self)
        ensures
            c.wf(),
            c.spec_stretch() == StretchMode::NoStretch,
            c.spec_transform() == transform,
            c.spec_vp_size() == (SizeAny { w: 480u32, h: 270u32 }),
            c.spec_proj() is None,
    {
        Camera { stretch: StretchMode::NoStretch, transform, vp_size: SizeAny::new(480, 270), proj: None }
    }

    pub fn stretch_mode(&self) -> (m: &StretchMode)
        ensures
            *m == self.spec_stretch(),
    {
        &self.stretch
    }

    pub fn transform(&self) -> (t: &X)
        ensures
            *t == self.spec_transform(),
    {
        &self.transform
    }

    pub fn vp_size(&self) -> (s: SizeAny<u32>)
        ensures
            s == self.spec_vp_size(),
    {
        self.vp_size
    }

    /// Sets the stretch mode and computes the projection again.
    pub fn set_stretch_mode(&mut self, sm: StretchMode)
        ensures
            final(self).wf(),
            final(self).spec_stretch() == sm,
            final(self).spec_transform() == old(self).spec_transform(),
            final(self).spec_vp_size() == old(self).spec_vp_size(),
            final(self).spec_proj() == Some(viewport_projection(old(self).spec_vp_size())),
    {
        self.stretch = sm;
        self.calc_proj_matrix();
    }

    pub fn set_transform(&mut self, t: X)
        ensures
            final(self).spec_transform() == t,
            final(self).spec_stretch() == old(self).spec_stretch(),
            final(self).spec_vp_size() == old(self).spec_vp_size(),
            final(self).spec_proj() == old(self).spec_proj(),
    {
        self.transform = t;
    }

    /// Sets the viewport size and computes the projection again.
    pub fn set_vp_size(&mut self, vp: SizeAny<u32>)
        ensures
            final(self).wf(),
            final(self).spec_vp_size() == vp,
            final(self).spec_stretch() == old(self).spec_stretch(),
            final(self).spec_transform() == old(self).spec_transform(),
            final(self).spec_proj() == Some(viewport_projection(vp)),
    {
        self.vp_size = vp;
        self.calc_proj_matrix();
    }

    /// Follows a window resize to the new size; other events are ignored.
    pub fn resize_event<U>(&mut self, ev: &Event<U>)
        ensures
            match *ev {
                Event::WindowResize(w, h) => {
                    &&& final(self).spec_vp_size() == (SizeAny { w, h })
                    &&& final(self).spec_proj() == Some(viewport_projection(SizeAny { w, h }))
                },
                _ => {
                    &&& final(self).spec_vp_size() == old(self).spec_vp_size()
                    &&& final(self).spec_proj() == old(self).spec_proj()
                },
            },
            final(self).spec_stretch() == old(self).spec_stretch(),
            final(self).spec_transform() == old(self).spec_transform(),
            old(self).wf() ==> final(self).wf(),
    {
        if let Event::WindowResize(w, h) = ev {
            self.set_vp_size(SizeAny::new(*w, *h));
        }
    }

    fn calc_proj_matrix(&mut self)
        ensures
            final(self).proj == Some(viewport_projection(old(self).vp_size)),
            final(self).vp_size == old(self).vp_size,
            final(self).stretch == old(self).stretch,
            final(self).transform == old(self).transform,
    {
        self.proj = Some(Ortho {
            left: 0,
            right: self.vp_size.w as i64,
            bottom: self.vp_size.h as i64,
            top: 0,
            near: 1,
            far: -1,
        });
    }

    /// Whether a projection has been computed.
    pub fn has_proj(&self) -> (b: bool)
        ensures
            b == self.spec_proj() is Some,
    {
        self.proj.is_some()
    }

    /// The projection; a viewport size or stretch mode must have been set first.
    pub fn proj_matrix(&self) -> (p: &Ortho)
        requires
            self.spec_proj() is Some,
        ensures
            *p == self.spec_proj()->Some_0,
    {
        self.proj.as_ref().unwrap()
    }
}

/// The projection of a viewport puts its top-left corner at the top-left of clip
/// space and its bottom-right corner at the bottom-right, with `y` flipped.
pub proof fn lemma_viewport_corners(vp: SizeAny<u32>)
    requires
        vp.w > 0,
        vp.h > 0,
    ensures
        maps_to(viewport_projection(vp), 0, 0, -1, 1),
        maps_to(viewport_projection(vp), vp.w as int, vp.h as int, 1, -1),
{
}

} // verus!
