use cushy::{Canvas, RectU32, SizeU32, TexFilters, Texture, UvRect};

fn raw(id: u32, w: u32, h: u32) -> Texture {
    Texture::from_canvas(&Canvas::new(SizeU32::new(w, h), None), id)
}

fn uv_f32(uv: UvRect) -> (f32, f32, f32, f32) {
    (
        uv.x1 as f32 / uv.w as f32,
        uv.y1 as f32 / uv.h as f32,
        uv.x2 as f32 / uv.w as f32,
        uv.y2 as f32 / uv.h as f32,
    )
}

#[test]
fn raw_texture_covers_unit_square() {
    let t = raw(3, 200, 100);
    assert_eq!(t.size(), SizeU32::new(200, 100));
    assert_eq!(t.get_underlying().id(), 3);
    assert_eq!(t.get_underlying().filters(), TexFilters::NearestNearest);
    assert_eq!(uv_f32(t.get_uv().unwrap()), (0.0, 0.0, 1.0, 1.0));
}

#[test]
fn sub_texture_uv() {
    let t = raw(1, 200, 100);
    let s = t.sub(&RectU32::new(50, 25, 100, 50));
    assert_eq!(s.size(), SizeU32::new(100, 50));
    assert_eq!(s.get_uv().unwrap(), UvRect { x1: 50, y1: 25, x2: 150, y2: 75, w: 200, h: 100 });
    assert_eq!(uv_f32(s.get_uv().unwrap()), (0.25, 0.25, 0.75, 0.75));
}

#[test]
fn nested_sub_texture_uv() {
    let t = raw(1, 200, 100);
    let s = t.sub(&RectU32::new(50, 25, 100, 50));
    let n = s.sub(&RectU32::new(0, 0, 50, 25));
    assert_eq!(n.size(), SizeU32::new(50, 25));
    assert_eq!(uv_f32(n.get_uv().unwrap()), (0.25, 0.25, 0.5, 0.5));
    assert_eq!(n.get_underlying().id(), 1);
}

#[test]
fn sub_region_is_not_checked() {
    let t = raw(1, 10, 10);
    let s = t.sub(&RectU32::new(8, 8, 50, 50));
    assert_eq!(s.size(), SizeU32::new(50, 50));
    assert_eq!(s.get_uv().unwrap(), UvRect { x1: 8, y1: 8, x2: 58, y2: 58, w: 10, h: 10 });
}

#[test]
fn equality_is_by_underlying_image() {
    let a = raw(1, 10, 10);
    let b = raw(2, 10, 10);
    let a2 = raw(1, 20, 20);
    assert!(a == a2);
    assert!(a != b);
    assert!(a.sub(&RectU32::new(0, 0, 1, 1)) == a.sub(&RectU32::new(5, 5, 2, 2)));
    assert!(a.clone() == a);
}
