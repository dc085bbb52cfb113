use cushy::quad::convert_vec;
use cushy::{Canvas, Quad, QuadRenderer, QuadRendererType, QuadSize, SizeU32, Texture};

type TestQuad = Quad<(i32, i32), (u32, u32)>;

fn tex(id: u32) -> Texture {
    Texture::from_canvas(&Canvas::new(SizeU32::new(8, 4), None), id)
}

fn textured(t: &Texture) -> TestQuad {
    let mut q = Quad::new((0, 0));
    q.set_texture(Some(t));
    q
}

fn batches(r: &QuadRenderer<(i32, i32), (u32, u32)>) -> Vec<(Option<u32>, u32, u32)> {
    r.batches()
        .iter()
        .map(|b| (b.tex.as_ref().map(|t| t.get_underlying().id()), b.start, b.count))
        .collect()
}

#[test]
fn quad_size_policy() {
    let t = tex(1);
    let mut q: TestQuad = Quad::new((1, 2));
    assert!(!q.has_size());
    q.set_texture(Some(&t));
    assert!(q.has_size());
    assert_eq!(q.size(), QuadSize::Texture(SizeU32::new(8, 4)));
    q.set_size((3, 5));
    assert_eq!(q.size(), QuadSize::Explicit((3, 5)));
    assert_eq!(*q.geom(), (1, 2));
    assert_eq!(q.color().0, 0xFFFF_FFFF);
}

#[test]
fn interleaved_textures_make_separate_batches() {
    let a = tex(1);
    let b = tex(2);
    let mut r = QuadRenderer::new(QuadRendererType::Cpu, 9);
    for t in [&a, &a, &b, &b, &a] {
        r.add(&textured(t));
    }
    assert_eq!(r.size(), 5);
    assert_eq!(batches(&r), vec![(Some(1), 0, 2), (Some(2), 2, 2), (Some(1), 4, 1)]);
    let f = r.draw();
    let calls: Vec<_> = f.calls.iter().map(|c| (c.tex.as_ref().map(|t| t.get_underlying().id()), c.first, c.count)).collect();
    assert_eq!(calls, vec![(Some(1), 0, 12), (Some(2), 12, 12), (Some(1), 24, 6)]);
    assert_eq!(f.quads.len(), 5);
    assert_eq!(r.size(), 0);
    assert!(r.batches().is_empty());
}

#[test]
fn sizeless_quad_is_skipped() {
    let a = tex(1);
    let mut r = QuadRenderer::new(QuadRendererType::Gpu, 9);
    r.add(&textured(&a));
    r.add(&Quad::new((0, 0)));
    assert_eq!(r.size(), 1);
    assert_eq!(batches(&r), vec![(Some(1), 0, 1)]);
}

#[test]
fn untextured_quads_share_a_batch() {
    let mut r = QuadRenderer::new(QuadRendererType::Cpu, 9);
    let mut q: TestQuad = Quad::new((0, 0));
    q.set_size((1, 1));
    r.add(&q);
    r.add(&q);
    assert_eq!(batches(&r), vec![(None, 0, 2)]);
    r.clear();
    assert_eq!(r.size(), 0);
    assert!(r.batches().is_empty());
}

#[test]
fn index_buffer_grows_only_when_needed() {
    let a = tex(1);
    let mut r = QuadRenderer::new(QuadRendererType::Cpu, 9);
    assert_eq!(r.ibo_size(), 1024);
    assert_eq!(r.index_buffer().data().len(), 6 * 1024);
    for n in [5, 3, 10, 2] {
        for _ in 0..n {
            r.add(&textured(&a));
        }
        let f = r.draw();
        assert!(!f.upload_indices);
        assert_eq!(r.ibo_size(), 1024);
    }
    for _ in 0..2000 {
        r.add(&textured(&a));
    }
    assert!(r.draw().upload_indices);
    assert_eq!(r.ibo_size(), 2000);
    for _ in 0..1500 {
        r.add(&textured(&a));
    }
    assert!(!r.draw().upload_indices);
    assert_eq!(r.ibo_size(), 2000);
    assert_eq!(r.index_buffer().data().len(), 6 * 2000);
}

#[test]
fn parallel_flag_is_independent_of_kind() {
    let mut r: QuadRenderer<(i32, i32), (u32, u32)> = QuadRenderer::new(QuadRendererType::Gpu, 9);
    assert!(r.parallel());
    r.set_parallel(false);
    assert!(!r.parallel());
    assert_eq!(r.kind(), QuadRendererType::Gpu);
}

#[test]
fn convert_vec_keeps_order() {
    let v = vec![[1, 2, 3, 4], [5, 6, 7, 8], [9, 10, 11, 12]];
    assert_eq!(convert_vec(v), vec![1, 2, 3, 4, 5, 6, 7, 8, 9, 10, 11, 12]);
}
