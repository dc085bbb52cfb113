use cushy::{PointU32, RectU32, SizeU32};

#[test]
fn rect_parts() {
    let r = RectU32::new(1, 2, 3, 4);
    assert_eq!(r.pos(), PointU32::new(1, 2));
    assert_eq!(r.size(), SizeU32::new(3, 4));
}

#[test]
fn contains_point_excludes_far_border() {
    let r = RectU32::new(10, 10, 5, 5);
    assert!(r.contains(PointU32::new(10, 10)));
    assert!(r.contains(PointU32::new(14, 14)));
    assert!(!r.contains(PointU32::new(15, 14)));
    assert!(!r.contains(PointU32::new(9, 12)));
}

#[test]
fn contains_all_and_none() {
    let r = RectU32::new(0, 0, 10, 10);
    assert!(r.contains_all(&RectU32::new(2, 2, 8, 8)));
    assert!(!r.contains_all(&RectU32::new(2, 2, 9, 8)));
    assert!(r.contains_none(&RectU32::new(10, 0, 5, 5)));
    assert!(!r.intersects(&RectU32::new(10, 0, 5, 5)));
    assert!(r.intersects(&RectU32::new(9, 9, 5, 5)));
}

#[test]
fn contains_near_the_top_of_the_range() {
    let r = RectU32::new(u32::MAX - 1, 0, 10, 10);
    assert!(r.contains(PointU32::new(u32::MAX, 5)));
}

#[test]
fn clip_partly_inside() {
    let r = RectU32::new(0, 0, 10, 10);
    let (c, p) = r.clip(&RectU32::new(8, 8, 5, 5)).unwrap();
    assert_eq!(c, RectU32::new(8, 8, 2, 2));
    assert_eq!(p, PointU32::new(0, 0));
}

#[test]
fn clip_from_before_the_origin() {
    let r = RectU32::new(5, 5, 10, 10);
    let (c, p) = r.clip(&RectU32::new(2, 3, 6, 20)).unwrap();
    assert_eq!(c, RectU32::new(5, 5, 3, 10));
    assert_eq!(p, PointU32::new(3, 2));
}

#[test]
fn clip_outside_or_empty() {
    let r = RectU32::new(0, 0, 10, 10);
    assert!(r.clip(&RectU32::new(10, 10, 5, 5)).is_none());
    assert!(r.clip(&RectU32::new(1, 1, 0, 5)).is_none());
    assert!(RectU32::new(0, 0, 0, 10).clip(&RectU32::new(1, 1, 3, 3)).is_none());
}

#[test]
fn point_from_size() {
    assert_eq!(PointU32::from(SizeU32::new(7, 9)), PointU32::new(7, 9));
}
