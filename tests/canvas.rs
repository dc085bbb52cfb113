use cushy::{Canvas, Color, PointU32, RectU32, SizeU32};

fn count(c: &Canvas, v: u32) -> usize {
    c.data().iter().filter(|p| **p == v).count()
}

#[test]
fn new_fills_and_is_dirty() {
    let c = Canvas::new(SizeU32::new(4, 3), Some(Color(7)));
    assert_eq!(c.size(), SizeU32::new(4, 3));
    assert_eq!(c.data().len(), 12);
    assert_eq!(count(&c, 7), 12);
    assert!(c.dirty());
    let z = Canvas::new(SizeU32::new(2, 2), None);
    assert_eq!(count(&z, 0), 4);
}

#[test]
fn clear_sets_every_pixel() {
    let mut c = Canvas::new(SizeU32::new(3, 3), Some(Color(1)));
    c.set_dirty(false);
    c.clear(Color(9));
    assert_eq!(count(&c, 9), 9);
    assert!(c.dirty());
}

#[test]
fn pixels_in_and_out_of_range() {
    let mut c = Canvas::new(SizeU32::new(3, 2), Some(Color(0)));
    c.set_dirty(false);
    c.set_pixel(PointU32::new(2, 1), Color(5));
    assert!(c.dirty());
    assert_eq!(c.data()[5], 5);
    assert_eq!(c.get_pixel(PointU32::new(2, 1)), Some(Color(5)));
    assert_eq!(c.get_pixel(PointU32::new(3, 1)), None);
    assert_eq!(c.get_pixel(PointU32::new(0, 2)), None);
    c.set_dirty(false);
    c.set_pixel(PointU32::new(3, 0), Color(6));
    assert!(!c.dirty());
    assert_eq!(count(&c, 6), 0);
}

#[test]
fn hline_clips_at_the_right_edge() {
    let mut c = Canvas::new(SizeU32::new(5, 2), Some(Color(0)));
    c.hline(PointU32::new(3, 1), 10, Color(2));
    assert_eq!(c.data(), &vec![0, 0, 0, 0, 0, 0, 0, 0, 2, 2]);
    c.hline(PointU32::new(5, 0), 3, Color(3));
    c.hline(PointU32::new(0, 2), 3, Color(3));
    assert_eq!(count(&c, 3), 0);
}

#[test]
fn vline_clips_at_the_bottom_edge() {
    let mut c = Canvas::new(SizeU32::new(2, 3), Some(Color(0)));
    c.vline(PointU32::new(1, 1), 10, Color(4));
    assert_eq!(c.data(), &vec![0, 0, 0, 4, 0, 4]);
}

#[test]
fn rect_draws_outline() {
    let mut c = Canvas::new(SizeU32::new(5, 5), Some(Color(0)));
    c.rect(RectU32::new(1, 1, 3, 3), Color(1));
    assert_eq!(count(&c, 1), 8);
    assert_eq!(c.get_pixel(PointU32::new(2, 2)), Some(Color(0)));
    assert_eq!(c.get_pixel(PointU32::new(3, 3)), Some(Color(1)));
    c.rect(RectU32::new(0, 0, 0, 3), Color(2));
    assert_eq!(count(&c, 2), 0);
}

#[test]
fn rect_fill_clips_to_canvas() {
    let mut c = Canvas::new(SizeU32::new(10, 10), Some(Color(0)));
    c.rect_fill(RectU32::new(8, 8, 5, 5), Color(3));
    assert_eq!(count(&c, 3), 4);
    for (x, y) in [(8, 8), (9, 8), (8, 9), (9, 9)] {
        assert_eq!(c.get_pixel(PointU32::new(x, y)), Some(Color(3)));
    }
}

#[test]
fn rect_fill_far_outside_touches_nothing() {
    let mut c = Canvas::new(SizeU32::new(4, 4), Some(Color(0)));
    c.rect_fill(RectU32::new(20, 1, 5, 5), Color(3));
    c.rect_fill(RectU32::new(1, 20, 5, 5), Color(3));
    assert_eq!(count(&c, 3), 0);
}

#[test]
fn from_memory_decodes_png() {
    let px: Vec<[u8; 4]> = vec![[1, 2, 3, 4], [5, 6, 7, 8], [9, 10, 11, 12], [13, 14, 15, 16], [0, 0, 0, 255], [255, 255, 255, 0]];
    let png = lodepng::encode32(&px, 3, 2).unwrap();
    let c = Canvas::from_memory(&png).unwrap();
    assert_eq!(c.size(), SizeU32::new(3, 2));
    assert_eq!(c.data()[0], Color::from_u8(1, 2, 3, 4).0);
    assert_eq!(c.data()[4], Color::from_u8(0, 0, 0, 255).0);
    assert_eq!(c.data()[5], Color::from_u8(255, 255, 255, 0).0);
}

#[test]
fn from_memory_rejects_garbage() {
    assert!(Canvas::from_memory(&[1, 2, 3, 4, 5]).is_err());
}
