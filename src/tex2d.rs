use vstd::prelude::*;

use crate::glenum;

verus! {

/// A texture sampling filter.
#[derive(Copy, Clone, PartialEq, Eq, Debug, Structural)]
pub enum TexFilter {
    Nearest,
    Linear,
}

impl TexFilter {
    /// The OpenGL enumerant of the filter.
    pub fn gl_filter(&self) -> (v: u32)
        ensures
            v == match *self {
                TexFilter::Nearest => glenum::NEAREST,
                TexFilter::Linear => glenum::LINEAR,
            },
    {
        match *self {
            TexFilter::Nearest => glenum::NEAREST,
            TexFilter::Linear => glenum::LINEAR,
        }
    }
}

/// A pair of filters: the first word names the minifying filter, the second the
/// magnifying one.
#[derive(Copy, Clone, PartialEq, Eq, Debug, Structural)]
pub enum TexFilters {
    NearestNearest,
    NearestLinear,
    LinearLinear,
    LinearNearest,
}

impl TexFilters {
    pub open spec fn min_spec(self) -> TexFilter {
        match self {
            TexFilters::NearestNearest | TexFilters::NearestLinear => TexFilter::Nearest,
            TexFilters::LinearLinear | TexFilters::LinearNearest => TexFilter::Linear,
        }
    }

    pub open spec fn mag_spec(self) -> TexFilter {
        match self {
            TexFilters::NearestNearest | TexFilters::LinearNearest => TexFilter::Nearest,
            TexFilters::LinearLinear | TexFilters::NearestLinear => TexFilter::Linear,
        }
    }

    /// The minifying filter.
    pub fn min(&self) -> (f: TexFilter)
        ensures
            f == self.min_spec(),
    {
        match *self {
            TexFilters::NearestNearest | TexFilters::NearestLinear => TexFilter::Nearest,
            TexFilters::LinearLinear | TexFilters::LinearNearest => TexFilter::Linear,
        }
    }

    /// The magnifying filter.
    pub fn mag(&self) -> (f: TexFilter)
        ensures
            f == self.mag_spec(),
    {
        match *self {
            TexFilters::NearestNearest | TexFilters::LinearNearest => TexFilter::Nearest,
            TexFilters::LinearLinear | TexFilters::NearestLinear => TexFilter::Linear,
        }
    }

    /// The OpenGL enumerants of the minifying and magnifying filters.
    pub fn gl_filters(&self) -> (v: (u32, u32))
        ensures
            v == (
                if self.min_spec() == TexFilter::Nearest { glenum::NEAREST } else { glenum::LINEAR },
                if self.mag_spec() == TexFilter::Nearest { glenum::NEAREST } else { glenum::LINEAR },
            ),
    {
        match *self {
            TexFilters::NearestNearest => (glenum::NEAREST, glenum::NEAREST),
            TexFilters::NearestLinear => (glenum::NEAREST, glenum::LINEAR),
            TexFilters::LinearLinear => (glenum::LINEAR, glenum::LINEAR),
            TexFilters::LinearNearest => (glenum::LINEAR, glenum::NEAREST),
        }
    }
}

impl Default for TexFilters {
    fn default() -> (f: TexFilters)
        ensures
            f == TexFilters::NearestNearest,
    {
        TexFilters::NearestNearest
    }
}

/// A 2D image object of the graphics backend, known by its name there.
///
/// Two values are the same image when their names are equal.
#[derive(Debug)]
pub struct Texture2D {
    id: u32,
    filters: TexFilters,
}

impl Texture2D {
    pub closed spec fn spec_id(&self) -> u32 {
        self.id
    }

    pub closed spec fn spec_filters(&self) -> TexFilters {
        self.filters
    }

    /// Wraps the image object named `id`, sampled with `filters`.
    pub fn new(id: u32, filters: TexFilters) -> (t: Texture2D)
        ensures
            t.spec_id() == id,
            t.spec_filters() == filters,
    {
        Texture2D { id, filters }
    }

    pub fn id(&self) -> (v: u32)
        ensures
            v == self.spec_id(),
    {
        self.id
    }

    pub fn filters(&self) -> (f: TexFilters)
        ensures
            f == self.spec_filters(),
    {
        self.filters
    }

    pub fn min_filter(&self) -> (f: TexFilter)
        ensures
            f == self.spec_filters().min_spec(),
    {
        self.filters.min()
    }

    pub fn mag_filter(&self) -> (f: TexFilter)
        ensures
            f == self.spec_filters().mag_spec(),
    {
        self.filters.mag()
    }
}

impl PartialEq for Texture2D {
    fn eq(&self, o: &Texture2D) -> (r: bool)
        ensures
            r == (self.spec_id() == o.spec_id()),
    {
        self.id == o.id
    }
}

impl vstd::std_specs::cmp::PartialEqSpecImpl for Texture2D {
    open spec fn obeys_eq_spec() -> bool {
        true
    }

    open spec fn eq_spec(&self, o: &Texture2D) -> bool {
        self.spec_id() == o.spec_id()
    }
}

} // verus!
