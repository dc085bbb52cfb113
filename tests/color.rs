use cushy::Color;

#[test]
fn from_u8_packs_abgr() {
    let c = Color::from_u8(0x11, 0x22, 0x33, 0x44);
    assert_eq!(c.as_u32(), 0x4433_2211);
    assert_eq!(c.0, 0x4433_2211);
}

#[test]
fn to_u8_splits_channels() {
    let c = Color(0x4433_2211);
    assert_eq!(c.to_u8(), (0x11, 0x22, 0x33, 0x44));
    assert_eq!(c.as_u8(), (0x11, 0x22, 0x33, 0x44));
}

#[test]
fn named_colors() {
    assert_eq!(Color::none().0, 0);
    assert_eq!(Color::transparent().0, 0);
    assert_eq!(Color::black().0, 0xFF00_0000);
    assert_eq!(Color::white().0, 0xFFFF_FFFF);
}

#[test]
fn blend_opaque_source_wins() {
    let src = Color::from_u8(10, 20, 30, 255);
    let dst = Color::from_u8(200, 100, 50, 7);
    assert_eq!(Color::blend_srcalpha(src, dst), src);
}

#[test]
fn blend_transparent_source_keeps_destination() {
    let src = Color::from_u8(10, 20, 30, 0);
    let dst = Color::from_u8(200, 100, 50, 7);
    assert_eq!(Color::blend_srcalpha(src, dst), dst);
}

#[test]
fn blend_half_alpha() {
    let src = Color::from_u8(255, 0, 100, 128);
    let dst = Color::from_u8(0, 255, 200, 77);
    // 255*128/255 + 0 = 128; 0 + 255*127/255 = 127; 100*128/255 + 200*127/255 = 50 + 99
    assert_eq!(Color::blend_srcalpha(src, dst).as_u8(), (128, 127, 149, 77));
}

#[test]
fn conversions() {
    assert_eq!(Color::from(0x0102_0304u32).0, 0x0102_0304);
    assert_eq!(Color::from((1u8, 2u8, 3u8, 4u8)).0, 0x0403_0201);
    assert_eq!(u32::from(Color(0xABCD_EF01)), 0xABCD_EF01);
}

#[test]
fn random_is_opaque() {
    for _ in 0..16 {
        assert_eq!(Color::random().as_u8().3, 255);
    }
}
