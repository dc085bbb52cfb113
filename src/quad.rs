use vstd::prelude::*;

use crate::color::Color;
use crate::geo::SizeAny;
use crate::ibo::{is_quad_indices, IndexBuffer, MAX_QUADS};
use crate::texture::{same_texture, texture_eq, Texture};
use crate::vbo::BufferUsage;

verus! {

/// Which side computes the corners of each quad: the CPU, before upload, or the
/// vertex shader, from the transform parameters carried by each vertex.
#[derive(Copy, Clone, PartialEq, Eq, Debug, Structural)]
pub enum QuadRendererType {
    Cpu,
    Gpu,
}

/// The size at which a quad is drawn.
#[derive(Copy, Clone, PartialEq, Eq, Debug, Structural)]
pub enum QuadSize<S> {
    /// The size set on the quad.
    Explicit(S),
    /// The pixel size of the quad's texture.
    Texture(SizeAny<u32>),
}

fn clone_texture(t: &Option<Texture>) -> (r: Option<Texture>)
    ensures
        r == *t,
{
    match t {
        Some(x) => Some(x.clone()),
        None => None,
    }
}

/// One renderable rectangle: its placement `G` (where it goes, turned and
/// scaled about which origin), an optional explicit size `S`, a color, and an
/// optional texture.
///
/// The library never looks inside `G` and `S`: it decides only from whether a
/// size is set and from the texture.
#[derive(Debug)]
pub struct Quad<G, S> {
    geom: G,
    size: Option<S>,
    col: Color,
    tex: Option<Texture>,
}

impl<G: Copy, S: Copy> Quad<G, S> {
    pub closed spec fn spec_geom(&self) -> G {
        self.geom
    }

    /// The explicit size, if one was set.
    pub closed spec fn explicit_size(&self) -> Option<S> {
        self.size
    }

    pub closed spec fn spec_color(&self) -> Color {
        self.col
    }

    pub closed spec fn spec_texture(&self) -> Option<Texture> {
        self.tex
    }

    /// A size can be resolved: one was set, or a texture gives one.
    pub open spec fn has_size_spec(&self) -> bool {
        self.explicit_size() is Some || self.spec_texture() is Some
    }

    /// The size the quad is drawn at: the explicit one first, else its texture's.
    pub open spec fn size_spec(&self) -> QuadSize<S>
        recommends
            self.has_size_spec(),
    {
        match self.explicit_size() {
            Some(s) => QuadSize::Explicit(s),
            None => QuadSize::Texture(self.spec_texture()->Some_0.spec_size()),
        }
    }

    /// A white quad placed by `geom`, with no size and no texture.
    pub fn new(geom: G) -> (q: Self)
        ensures
            q.spec_geom() == geom,
            q.explicit_size() is None,
            q.spec_color() == Color(0xFFFF_FFFF),
            q.spec_texture() is None,
    {
        Quad { geom, size: None, col: Color(0xFFFF_FFFF), tex: None }
    }

    pub fn geom(&self) -> (g: &G)
        ensures
            *g == self.spec_geom(),
    {
        &self.geom
    }

    pub fn geom_mut(&mut self) -> (g: &mut G)
        ensures
            *g == old(self).spec_geom(),
            final(self).spec_geom() == *final(g),
            final(self).explicit_size() == old(self).explicit_size(),
            final(self).spec_color() == old(self).spec_color(),
            final(self).spec_texture() == old(self).spec_texture(),
    {
        &mut self.geom
    }

    pub fn set_geom(&mut self, geom: G)
        ensures
            final(self).spec_geom() == geom,
            final(self).explicit_size() == old(self).explicit_size(),
            final(self).spec_color() == old(self).spec_color(),
            final(self).spec_texture() == old(self).spec_texture(),
    {
        self.geom = geom;
    }

    pub fn color(&self) -> (c: Color)
        ensures
            c == self.spec_color(),
    {
        self.col
    }

    pub fn set_color(&mut self, col: Color)
        ensures
            final(self).spec_color() == col,
            final(self).spec_geom() == old(self).spec_geom(),
            final(self).explicit_size() == old(self).explicit_size(),
            final(self).spec_texture() == old(self).spec_texture(),
    {
        self.col = col;
    }

    /// Another handle to the quad's texture, if it has one.
    pub fn texture(&self) -> (t: Option<Texture>)
        ensures
            t == self.spec_texture(),
    {
        clone_texture(&self.tex)
    }

    pub fn set_texture(&mut self, tex: Option<&Texture>)
        ensures
            final(self).spec_texture() == match tex {
                Some(t) => Some(*t),
                None => None::<Texture>,
            },
            final(self).spec_geom() == old(self).spec_geom(),
            final(self).explicit_size() == old(self).explicit_size(),
            final(self).spec_color() == old(self).spec_color(),
    {
        self.tex = match tex {
            Some(t) => Some(t.clone()),
            None => None,
        };
    }

    /// Sets the size the quad is drawn at, whatever its texture.
    pub fn set_size(&mut self, sz: S)
        ensures
            final(self).explicit_size() == Some(sz),
            final(self).spec_geom() == old(self).spec_geom(),
            final(self).spec_color() == old(self).spec_color(),
            final(self).spec_texture() == old(self).spec_texture(),
    {
        self.size = Some(sz);
    }

    /// Whether a size can be resolved: one was set, or a texture is attached.
    pub fn has_size(&self) -> (b: bool)
        ensures
            b == self.has_size_spec(),
    {
        self.tex.is_some() || self.size.is_some()
    }

    /// The size the quad is drawn at: the explicit one when set, else the pixel
    /// size of its texture.
    pub fn size(&self) -> (s: QuadSize<S>)
        requires
            self.has_size_spec(),
        ensures
            s == self.size_spec(),
    {
        match self.size {
            Some(s) => QuadSize::Explicit(s),
            None => QuadSize::Texture(self.tex.as_ref().unwrap().size()),
        }
    }
}

impl<G: Copy, S: Copy> Clone for Quad<G, S> {
    fn clone(&self) -> (q: Self)
        ensures
            q == *self,
    {
        Quad { geom: self.geom, size: self.size, col: self.col, tex: clone_texture(&self.tex) }
    }
}

/// The vertices of quads laid end to end: the `k`-th vertex of quad `i` lands at
/// index `4 * i + k`, so the order of the quads is kept.
pub fn convert_vec<T: Copy>(vtx: Vec<[T; 4]>) -> (r: Vec<T>)
    requires
        4 * vtx@.len() <= usize::MAX,
    ensures
        r@.len() == 4 * vtx@.len(),
        forall|i: int, k: int|
            0 <= i < vtx@.len() && 0 <= k < 4 ==> #[trigger] r@[4 * i + k] == vtx@[i]@[k],
{
    let n = vtx.len();
    let mut out: Vec<T> = Vec::with_capacity(n * 4);
    let mut i: usize = 0;
    while i < n
        invariant
            i <= n,
            n == vtx@.len(),
            4 * n <= usize::MAX,
            out@.len() == 4 * i,
            forall|ii: int, k: int|
                0 <= ii < i && 0 <= k < 4 ==> #[trigger] out@[4 * ii + k] == vtx@[ii]@[k],
        decreases n - i,
    {
        let quad = vtx[i];
        let ghost prev = out@;
        out.push(quad[0]);
        out.push(quad[1]);
        out.push(quad[2]);
        out.push(quad[3]);
        assert forall|ii: int, k: int| 0 <= ii < i + 1 && 0 <= k < 4 implies #[trigger] out@[4 * ii
            + k] == vtx@[ii]@[k] by {
            if ii < i {
                assert(out@[4 * ii + k] == prev[4 * ii + k]);
            }
        }
        i = i + 1;
    }
    out
}

/// A run of consecutive queued quads that share one texture, drawn by one call.
#[derive(Debug)]
pub struct QRBatch {
    pub tex: Option<Texture>,
    pub start: u32,
    pub count: u32,
}

/// One indexed draw call: the texture to bind, if any, and the range of indices.
#[derive(Debug)]
pub struct DrawCall {
    pub tex: Option<Texture>,
    pub first: u32,
    pub count: u32,
}

/// What a frame hands to the graphics backend: the quads to turn into vertices,
/// in order; whether the index buffer must be uploaded again; and the draw calls,
/// in order.
#[derive(Debug)]
pub struct Frame<G, S> {
    pub quads: Vec<Quad<G, S>>,
    pub upload_indices: bool,
    pub calls: Vec<DrawCall>,
}

/// `batches` splits `quads` into its maximal runs of one texture, in order: the
/// runs cover the quads end to end, every quad of a run has the run's texture,
/// and neighbouring runs have different textures.
pub open spec fn runs_of<G: Copy, S: Copy>(batches: Seq<QRBatch>, quads: Seq<Quad<G, S>>) -> bool {
    &&& (batches.len() == 0 <==> quads.len() == 0)
    &&& batches.len() > 0 ==> batches[0].start == 0
    &&& batches.len() > 0 ==> batches.last().start + batches.last().count == quads.len()
    &&& forall|i: int| 0 <= i < batches.len() ==> #[trigger] batches[i].count >= 1
    &&& forall|i: int|
        0 <= i < batches.len() - 1 ==> #[trigger] batches[i + 1].start == batches[i].start
            + batches[i].count
    &&& forall|i: int, j: int|
        0 <= i < batches.len() && batches[i].start <= j < batches[i].start + batches[i].count
            ==> same_texture(#[trigger] quads[j].spec_texture(), #[trigger] batches[i].tex)
    &&& forall|i: int|
        0 <= i < batches.len() - 1 ==> !same_texture(
            #[trigger] batches[i].tex,
            batches[i + 1].tex,
        )
}

/// The batches after a quad with texture `tex` is queued behind `len` others:
/// the last run grows when its texture is the same, else a new run starts.
pub open spec fn added_batches(batches: Seq<QRBatch>, len: int, tex: Option<Texture>) -> Seq<QRBatch> {
    if batches.len() > 0 && same_texture(batches.last().tex, tex) {
        batches.update(
            batches.len() - 1,
            QRBatch {
                tex: batches.last().tex,
                start: batches.last().start,
                count: (batches.last().count + 1) as u32,
            },
        )
    } else {
        batches.push(QRBatch { tex, start: len as u32, count: 1 })
    }
}

/// How many quads the index buffer holds after a frame of `n` quads: it grows to
/// fit and never shrinks.
pub open spec fn grown_capacity(cap: int, n: int) -> int {
    if n > cap {
        n
    } else {
        cap
    }
}

/// The draw call of a batch: six indices per quad.
pub open spec fn call_of(b: QRBatch) -> DrawCall {
    DrawCall { tex: b.tex, first: (6 * b.start) as u32, count: (6 * b.count) as u32 }
}

/// How many quads the index buffer is first filled for.
pub const INITIAL_INDEX_QUADS: u32 = 1024;

/// Queues quads for a frame, groups them into batches by texture, and plans the
/// draw calls that render them.
#[derive(Debug)]
pub struct QuadRenderer<G, S> {
    qrt: QuadRendererType,
    ibo: IndexBuffer,
    ibo_size: u32,
    data: Vec<Quad<G, S>>,
    batches: Vec<QRBatch>,
    parallel: bool,
}

impl<G: Copy, S: Copy> QuadRenderer<G, S> {
    pub closed spec fn spec_kind(&self) -> QuadRendererType {
        self.qrt
    }

    /// The queued quads, in the order they were added.
    pub closed spec fn spec_quads(&self) -> Seq<Quad<G, S>> {
        self.data@
    }

    pub closed spec fn spec_batches(&self) -> Seq<QRBatch> {
        self.batches@
    }

    /// How many quads the index buffer holds indices for.
    pub closed spec fn index_capacity(&self) -> u32 {
        self.ibo_size
    }

    pub closed spec fn spec_index_buffer(&self) -> IndexBuffer {
        self.ibo
    }

    pub closed spec fn spec_parallel(&self) -> bool {
        self.parallel
    }

    pub open spec fn wf(&self) -> bool {
        &&& self.spec_quads().len() <= MAX_QUADS
        &&& self.index_capacity() <= MAX_QUADS
        &&& runs_of(self.spec_batches(), self.spec_quads())
        &&& is_quad_indices(self.spec_index_buffer().spec_data(), self.index_capacity() as int)
    }

    /// A renderer of the given kind over the index buffer object named `ibo_id`,
    /// whose indices are first filled for 1024 quads; vertices are built in
    /// parallel.
    pub fn new(qrt: QuadRendererType, ibo_id: u32) -> (r: Self)
        ensures
            r.wf(),
            r.spec_kind() == qrt,
            r.spec_quads().len() == 0,
            r.index_capacity() == INITIAL_INDEX_QUADS,
            r.spec_index_buffer().spec_id() == ibo_id,
            r.spec_index_buffer().spec_usage() == BufferUsage::Static,
            r.spec_parallel(),
    {
        let mut qr = QuadRenderer {
            qrt,
            ibo: IndexBuffer::new(ibo_id, BufferUsage::Static),
            ibo_size: 0,
            data: Vec::new(),
            batches: Vec::new(),
            parallel: true,
        };
        qr.resize_ibo(INITIAL_INDEX_QUADS);
        qr
    }

    pub fn kind(&self) -> (k: QuadRendererType)
        ensures
            k == self.spec_kind(),
    {
        self.qrt
    }

    /// Whether vertices are built in parallel.
    pub fn parallel(&self) -> (p: bool)
        ensures
            p == self.spec_parallel(),
    {
        self.parallel
    }

    /// Chooses whether vertices are built in parallel; nothing else changes.
    pub fn set_parallel(&mut self, p: bool)
        ensures
            final(self).spec_parallel() == p,
            final(self).spec_kind() == old(self).spec_kind(),
            final(self).spec_quads() == old(self).spec_quads(),
            final(self).spec_batches() == old(self).spec_batches(),
            final(self).index_capacity() == old(self).index_capacity(),
            final(self).spec_index_buffer() == old(self).spec_index_buffer(),
    {
        self.parallel = p;
    }

    /// The index buffer, whose indices the backend holds.
    pub fn index_buffer(&self) -> (b: &IndexBuffer)
        ensures
            *b == self.spec_index_buffer(),
    {
        &self.ibo
    }

    /// How many quads the index buffer holds indices for.
    pub fn ibo_size(&self) -> (n: u32)
        ensures
            n == self.index_capacity(),
    {
        self.ibo_size
    }

    /// The batches of the queued quads, in order.
    pub fn batches(&self) -> (b: &Vec<QRBatch>)
        ensures
            b@ == self.spec_batches(),
    {
        &self.batches
    }

    /// The number of queued quads.
    pub fn size(&self) -> (n: usize)
        ensures
            n == self.spec_quads().len(),
    {
        self.data.len()
    }

    /// Drops the queued quads and their batches.
    pub fn clear(&mut self)
        requires
            old(self).wf(),
        ensures
            final(self).wf(),
            final(self).spec_quads().len() == 0,
            final(self).spec_batches().len() == 0,
            final(self).spec_kind() == old(self).spec_kind(),
            final(self).spec_parallel() == old(self).spec_parallel(),
            final(self).index_capacity() == old(self).index_capacity(),
            final(self).spec_index_buffer() == old(self).spec_index_buffer(),
    {
        self.data.clear();
        self.batches.clear();
    }

    /// Queues a copy of `q`; a quad whose size cannot be resolved is skipped.
    ///
    /// The quad joins the last batch when it has the same texture, else it starts
    /// a new batch; a batch never merges with an earlier, non-adjacent one.
    pub fn add(&mut self, q: &Quad<G, S>)
        requires
            old(self).wf(),
            q.has_size_spec() ==> old(self).spec_quads().len() < MAX_QUADS,
        ensures
            final(self).wf(),
            final(self).spec_quads() == if q.has_size_spec() {
                old(self).spec_quads().push(*q)
            } else {
                old(self).spec_quads()
            },
            final(self).spec_batches() == if q.has_size_spec() {
                added_batches(
                    old(self).spec_batches(),
                    old(self).spec_quads().len() as int,
                    q.spec_texture(),
                )
            } else {
                old(self).spec_batches()
            },
            final(self).spec_kind() == old(self).spec_kind(),
            final(self).spec_parallel() == old(self).spec_parallel(),
            final(self).index_capacity() == old(self).index_capacity(),
            final(self).spec_index_buffer() == old(self).spec_index_buffer(),
    {
        if !q.has_size() {
            return;
        }
        let len = self.data.len();
        self.data.push(q.clone());
        let tex = q.texture();
        let n = self.batches.len();
        if n > 0 && texture_eq(&self.batches[n - 1].tex, &tex) {
            let last = self.batches.pop().unwrap();
            self.batches.push(QRBatch { tex: last.tex, start: last.start, count: last.count + 1 });
            assert(self.batches@ =~= added_batches(old(self).batches@, len as int, tex));
        } else {
            self.batches.push(QRBatch { tex, start: len as u32, count: 1 });
        }
        assert(self.data@ == old(self).data@.push(*q));
        proof {
            lemma_runs_add(old(self).batches@, old(self).data@, *q);
        }
    }

    fn resize_ibo(&mut self, size: u32)
        requires
            size <= MAX_QUADS,
        ensures
            final(self).ibo_size == size,
            is_quad_indices(final(self).ibo.spec_data(), size as int),
            final(self).ibo.spec_id() == old(self).ibo.spec_id(),
            final(self).ibo.spec_usage() == old(self).ibo.spec_usage(),
            final(self).qrt == old(self).qrt,
            final(self).data == old(self).data,
            final(self).batches == old(self).batches,
            final(self).parallel == old(self).parallel,
    {
        self.ibo_size = size;
        self.ibo.auto_quads(size);
    }

    /// Grows the index buffer to hold `size` quads; returns whether it changed.
    fn fit_ibo(&mut self, size: u32) -> (grew: bool)
        requires
            size <= MAX_QUADS,
            is_quad_indices(old(self).ibo.spec_data(), old(self).ibo_size as int),
        ensures
            grew == (size > old(self).ibo_size),
            final(self).ibo_size == grown_capacity(old(self).ibo_size as int, size as int),
            is_quad_indices(final(self).ibo.spec_data(), final(self).ibo_size as int),
            grew || final(self).ibo == old(self).ibo,
            final(self).ibo.spec_id() == old(self).ibo.spec_id(),
            final(self).ibo.spec_usage() == old(self).ibo.spec_usage(),
            final(self).qrt == old(self).qrt,
            final(self).data == old(self).data,
            final(self).batches == old(self).batches,
            final(self).parallel == old(self).parallel,
    {
        if size > self.ibo_size {
            self.resize_ibo(size);
            true
        } else {
            false
        }
    }

    /// Ends the frame: hands over the queued quads, grows the index buffer to fit
    /// them, and plans one draw call per batch, in order. The renderer is left
    /// with nothing queued.
    pub fn draw(&mut self) -> (f: Frame<G, S>)
        requires
            old(self).wf(),
        ensures
            final(self).wf(),
            final(self).spec_quads().len() == 0,
            final(self).spec_batches().len() == 0,
            f.quads@ == old(self).spec_quads(),
            f.upload_indices == (old(self).spec_quads().len() > old(self).index_capacity()),
            final(self).index_capacity() == grown_capacity(
                old(self).index_capacity() as int,
                old(self).spec_quads().len() as int,
            ),
            !f.upload_indices ==> final(self).spec_index_buffer() == old(self).spec_index_buffer(),
            final(self).spec_index_buffer().spec_id() == old(self).spec_index_buffer().spec_id(),
            final(self).spec_index_buffer().spec_usage() == old(
                self,
            ).spec_index_buffer().spec_usage(),
            final(self).spec_kind() == old(self).spec_kind(),
            final(self).spec_parallel() == old(self).spec_parallel(),
            f.calls@.len() == old(self).spec_batches().len(),
            forall|i: int|
                0 <= i < f.calls@.len() ==> #[trigger] f.calls@[i] == call_of(
                    old(self).spec_batches()[i],
                ),
    {
        let len = self.data.len();
        let mut quads: Vec<Quad<G, S>> = Vec::new();
        std::mem::swap(&mut self.data, &mut quads);
        let upload_indices = self.fit_ibo(len as u32);

        let mut calls: Vec<DrawCall> = Vec::new();
        let nb = self.batches.len();
        let mut i: usize = 0;
        while i < nb
            invariant
                i <= nb,
                nb == self.batches@.len(),
                self.batches == old(self).batches,
                runs_of(old(self).batches@, old(self).data@),
                old(self).data@.len() <= MAX_QUADS,
                calls@.len() == i,
                forall|k: int| 0 <= k < i ==> #[trigger] calls@[k] == call_of(self.batches@[k]),
            decreases nb - i,
        {
            proof {
                lemma_batch_in_range(old(self).batches@, old(self).data@, i as int);
            }
            let b = &self.batches[i];
            calls.push(DrawCall { tex: clone_texture(&b.tex), first: b.start * 6, count: b.count * 6 });
            i = i + 1;
        }
        self.batches.clear();
        proof {
            lemma_runs_empty::<G, S>();
        }
        Frame { quads, upload_indices, calls }
    }
}

/// Each batch lies within the queued quads.
proof fn lemma_batch_in_range<G: Copy, S: Copy>(batches: Seq<QRBatch>, quads: Seq<Quad<G, S>>, i: int)
    requires
        runs_of(batches, quads),
        0 <= i < batches.len(),
    ensures
        batches[i].start + batches[i].count <= quads.len(),
    decreases batches.len() - i,
{
    reveal(runs_of);
    if i < batches.len() - 1 {
        assert(batches[i + 1].start == batches[i].start + batches[i].count);
        lemma_batch_in_range(batches, quads, i + 1);
    }
}

proof fn lemma_runs_empty<G: Copy, S: Copy>()
    ensures
        runs_of(Seq::<QRBatch>::empty(), Seq::<Quad<G, S>>::empty()),
{
    reveal(runs_of);
}

/// Queuing a quad keeps the batches the maximal runs of the queue.
proof fn lemma_runs_add<G: Copy, S: Copy>(batches: Seq<QRBatch>, quads: Seq<Quad<G, S>>, q: Quad<G, S>)
    requires
        runs_of(batches, quads),
        quads.len() < MAX_QUADS,
    ensures
        runs_of(added_batches(batches, quads.len() as int, q.spec_texture()), quads.push(q)),
{
    if batches.len() > 0 {
        lemma_batch_in_range(batches, quads, batches.len() - 1);
    }
    if batches.len() > 0 && same_texture(batches.last().tex, q.spec_texture()) {
        lemma_runs_extend(batches, quads, q);
    } else {
        lemma_runs_start(batches, quads, q);
    }
}

proof fn lemma_runs_extend<G: Copy, S: Copy>(batches: Seq<QRBatch>, quads: Seq<Quad<G, S>>, q: Quad<G, S>)
    requires
        runs_of(batches, quads),
        quads.len() < MAX_QUADS,
        batches.len() > 0,
        batches.last().start + batches.last().count <= quads.len(),
        same_texture(batches.last().tex, q.spec_texture()),
    ensures
        runs_of(added_batches(batches, quads.len() as int, q.spec_texture()), quads.push(q)),
{
    reveal(runs_of);
    let len = quads.len() as int;
    let last = batches.len() - 1;
    let b = added_batches(batches, len, q.spec_texture());
    let d = quads.push(q);
    assert(b.len() == batches.len());
    assert(forall|i: int| 0 <= i < last ==> #[trigger] b[i] == batches[i]);
    assert(b[last].tex == batches[last].tex);
    assert(b[last].start == batches[last].start);
    assert(b[last].count == batches[last].count + 1);
    assert forall|i: int, j: int|
        0 <= i < b.len() && b[i].start <= j < b[i].start + b[i].count implies same_texture(
        #[trigger] d[j].spec_texture(),
        #[trigger] b[i].tex,
    ) by {
        if j < len {
            assert(d[j] == quads[j]);
            if i < last {
                assert(same_texture(quads[j].spec_texture(), batches[i].tex));
            } else {
                assert(j < batches[last].start + batches[last].count);
                assert(same_texture(quads[j].spec_texture(), batches[last].tex));
            }
        } else {
            assert(i == last) by {
                if i < last {
                    lemma_batch_in_range(batches, quads, i);
                }
            }
            assert(d[j] == q);
        }
    }
}

proof fn lemma_runs_start<G: Copy, S: Copy>(batches: Seq<QRBatch>, quads: Seq<Quad<G, S>>, q: Quad<G, S>)
    requires
        runs_of(batches, quads),
        quads.len() < MAX_QUADS,
        !(batches.len() > 0 && same_texture(batches.last().tex, q.spec_texture())),
    ensures
        runs_of(added_batches(batches, quads.len() as int, q.spec_texture()), quads.push(q)),
{
    reveal(runs_of);
    let len = quads.len() as int;
    let b = added_batches(batches, len, q.spec_texture());
    let d = quads.push(q);
    assert(b == batches.push(QRBatch { tex: q.spec_texture(), start: len as u32, count: 1 }));
    assert forall|i: int, j: int|
        0 <= i < b.len() && b[i].start <= j < b[i].start + b[i].count implies same_texture(
        #[trigger] d[j].spec_texture(),
        #[trigger] b[i].tex,
    ) by {
        if i < batches.len() {
            assert(b[i] == batches[i]);
            if i < batches.len() - 1 {
                assert(batches[i + 1].start == batches[i].start + batches[i].count);
                lemma_batch_in_range(batches, quads, i + 1);
            }
            assert(j < len);
            assert(d[j] == quads[j]);
            assert(same_texture(quads[j].spec_texture(), batches[i].tex));
        }
    }
    assert forall|i: int| 0 <= i < b.len() - 1 implies #[trigger] b[i + 1].start == b[i].start
        + b[i].count by {
        if i < batches.len() - 1 {
            assert(batches[i + 1].start == batches[i].start + batches[i].count);
        }
    }
    assert forall|i: int| 0 <= i < b.len() - 1 implies !same_texture(
        #[trigger] b[i].tex,
        b[i + 1].tex,
    ) by {
        if i < batches.len() - 1 {
            assert(!same_texture(batches[i].tex, batches[i + 1].tex));
        }
    }
    assert forall|i: int| 0 <= i < b.len() implies #[trigger] b[i].count >= 1 by {
        if i < batches.len() {
            assert(batches[i].count >= 1);
        }
    }
}

/// The batches of a queue of sized quads with textures `texs`, added in order to
/// an empty renderer.
pub open spec fn batches_of(texs: Seq<Option<Texture>>) -> Seq<QRBatch>
    decreases texs.len(),
{
    if texs.len() == 0 {
        Seq::empty()
    } else {
        added_batches(batches_of(texs.drop_last()), texs.len() - 1, texs.last())
    }
}

/// Runs of one texture that are not adjacent stay separate batches: quads with
/// textures `a, a, b, b, a`, where `a` and `b` are different images, make the
/// three batches `(a, 0, 2)`, `(b, 2, 2)` and `(a, 4, 1)`.
pub proof fn lemma_separate_runs_stay_apart(a: Texture, b: Texture)
    requires
        a.spec_underlying().spec_id() != b.spec_underlying().spec_id(),
    ensures
        ({
            let bs = batches_of(seq![Some(a), Some(a), Some(b), Some(b), Some(a)]);
            &&& bs.len() == 3
            &&& bs[0] == QRBatch { tex: Some(a), start: 0, count: 2 }
            &&& bs[1] == QRBatch { tex: Some(b), start: 2, count: 2 }
            &&& bs[2] == QRBatch { tex: Some(a), start: 4, count: 1 }
        }),
{
    let t = seq![Some(a), Some(a), Some(b), Some(b), Some(a)];
    assert(t.drop_last() =~= seq![Some(a), Some(a), Some(b), Some(b)]);
    assert(t.drop_last().drop_last() =~= seq![Some(a), Some(a), Some(b)]);
    assert(t.drop_last().drop_last().drop_last() =~= seq![Some(a), Some(a)]);
    assert(t.drop_last().drop_last().drop_last().drop_last() =~= seq![Some(a)]);
    assert(seq![Some(a)].drop_last() =~= Seq::<Option<Texture>>::empty());
    assert(batches_of(Seq::<Option<Texture>>::empty()) =~= Seq::<QRBatch>::empty());
    let b1 = batches_of(seq![Some(a)]);
    assert(b1 == added_batches(Seq::<QRBatch>::empty(), 0, Some(a)));
    assert(b1 =~= seq![QRBatch { tex: Some(a), start: 0, count: 1 }]);
    let b2 = batches_of(seq![Some(a), Some(a)]);
    assert(b2 =~= seq![QRBatch { tex: Some(a), start: 0, count: 2 }]);
    let b3 = batches_of(seq![Some(a), Some(a), Some(b)]);
    assert(b3 =~= seq![
        QRBatch { tex: Some(a), start: 0, count: 2 },
        QRBatch { tex: Some(b), start: 2, count: 1 },
    ]);
    let b4 = batches_of(seq![Some(a), Some(a), Some(b), Some(b)]);
    assert(b4 =~= seq![
        QRBatch { tex: Some(a), start: 0, count: 2 },
        QRBatch { tex: Some(b), start: 2, count: 2 },
    ]);
    let b5 = batches_of(t);
    assert(b5 =~= seq![
        QRBatch { tex: Some(a), start: 0, count: 2 },
        QRBatch { tex: Some(b), start: 2, count: 2 },
        QRBatch { tex: Some(a), start: 4, count: 1 },
    ]);
}

/// The index buffer's capacity, in quads, after frames of `counts` quads each,
/// starting from `cap`.
pub open spec fn capacity_after(cap: int, counts: Seq<int>) -> int
    decreases counts.len(),
{
    if counts.len() == 0 {
        cap
    } else {
        grown_capacity(capacity_after(cap, counts.drop_last()), counts.last())
    }
}

/// The index buffer only grows: after any frames its capacity is the largest of
/// the starting capacity and every frame's quad count, it never falls between
/// frames, and a frame that fits leaves it as it was.
pub proof fn lemma_index_capacity_grows(cap: int, counts: Seq<int>)
    ensures
        capacity_after(cap, counts) >= cap,
        forall|i: int| 0 <= i < counts.len() ==> capacity_after(cap, counts) >= #[trigger] counts[i],
        capacity_after(cap, counts) == cap || exists|i: int|
            0 <= i < counts.len() && capacity_after(cap, counts) == #[trigger] counts[i],
        forall|i: int, j: int|
            0 <= i <= j <= counts.len() ==> #[trigger] capacity_after(cap, counts.take(i))
                <= #[trigger] capacity_after(cap, counts.take(j)),
        forall|i: int|
            0 <= i < counts.len() && counts[i] <= capacity_after(cap, counts.take(i)) ==> (
            #[trigger] capacity_after(cap, counts.take(i + 1))) == capacity_after(
                cap,
                counts.take(i),
            ),
    decreases counts.len(),
{
    if counts.len() > 0 {
        let init = counts.drop_last();
        lemma_index_capacity_grows(cap, init);
        assert forall|i: int| 0 <= i < counts.len() implies capacity_after(cap, counts)
            >= #[trigger] counts[i] by {
            if i < counts.len() - 1 {
                assert(init[i] == counts[i]);
            }
        }
        if capacity_after(cap, counts) != cap {
            if capacity_after(cap, counts) == counts.last() {
                assert(capacity_after(cap, counts) == counts[counts.len() - 1]);
            } else {
                let k = choose|k: int| 0 <= k < init.len() && capacity_after(cap, init) == #[trigger] init[k];
                assert(capacity_after(cap, counts) == counts[k]);
            }
        }
        assert forall|i: int| 0 <= i <= counts.len() implies #[trigger] counts.take(i) == if i
            == counts.len() {
            counts
        } else {
            init.take(i)
        } by {
            if i == counts.len() {
                assert(counts.take(i) =~= counts);
            } else {
                assert(counts.take(i) =~= init.take(i));
            }
        }
        assert(init.take(init.len() as int) =~= init);
        assert forall|i: int, j: int| 0 <= i <= j <= counts.len() implies
            #[trigger] capacity_after(cap, counts.take(i)) <= #[trigger] capacity_after(
            cap,
            counts.take(j),
        ) by {
            if j == counts.len() {
                if i < counts.len() {
                    assert(capacity_after(cap, init.take(i)) <= capacity_after(cap, init.take(init.len() as int)));
                }
            }
        }
        assert forall|i: int|
            0 <= i < counts.len() && counts[i] <= capacity_after(cap, counts.take(i)) implies (
            #[trigger] capacity_after(cap, counts.take(i + 1))) == capacity_after(
            cap,
            counts.take(i),
        ) by {
            if i == counts.len() - 1 {
                assert(counts.take(i) =~= init);
            } else {
                assert(init[i] == counts[i]);
            }
        }
    }
}

} // verus!
