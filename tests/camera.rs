use cgmath::{vec4, Matrix4};
use cushy::{Camera, Event, Ortho, SizeU32, StretchMode};

fn matrix(o: &Ortho) -> Matrix4<f32> {
    cgmath::ortho(o.left as f32, o.right as f32, o.bottom as f32, o.top as f32, o.near as f32, o.far as f32)
}

#[test]
fn camera_starts_without_projection() {
    let c = Camera::new(());
    assert!(!c.has_proj());
    assert_eq!(c.vp_size(), SizeU32::new(480, 270));
    assert_eq!(*c.stretch_mode(), StretchMode::NoStretch);
}

#[test]
fn projection_maps_corners() {
    let mut c = Camera::new(());
    c.set_vp_size(SizeU32::new(800, 600));
    let o = *c.proj_matrix();
    assert_eq!(o, Ortho { left: 0, right: 800, bottom: 600, top: 0, near: 1, far: -1 });
    let m = matrix(&o);
    let a = m * vec4(0.0, 0.0, 0.0, 1.0);
    let b = m * vec4(800.0, 600.0, 0.0, 1.0);
    assert_eq!((a.x, a.y), (-1.0, 1.0));
    assert_eq!((b.x, b.y), (1.0, -1.0));
}

#[test]
fn stretch_mode_recomputes() {
    let mut c = Camera::new(());
    c.set_stretch_mode(StretchMode::KeepAspect(16, 9));
    assert_eq!(*c.proj_matrix(), Ortho { left: 0, right: 480, bottom: 270, top: 0, near: 1, far: -1 });
}

#[test]
fn resize_event_follows_window() {
    let mut c = Camera::new(());
    c.resize_event(&Event::<()>::WindowResize(1024, 768));
    assert_eq!(c.vp_size(), SizeU32::new(1024, 768));
    assert_eq!(c.proj_matrix().right, 1024);
    c.resize_event(&Event::<()>::QuitRequest);
    assert_eq!(c.vp_size(), SizeU32::new(1024, 768));
}
