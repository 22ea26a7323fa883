use orbclient_sdl::color::{colors_from_bytes, colors_to_bytes, Color};

#[test]
fn rgb_is_opaque_and_packed() {
    assert_eq!(Color::rgb(0x12, 0x34, 0x56).data, 0xFF12_3456);
    assert_eq!(Color::rgb(0, 0, 0).data, 0xFF00_0000);
}

#[test]
fn rgba_packs_alpha_highest() {
    assert_eq!(Color::rgba(1, 2, 3, 4).data, 0x0401_0203);
}

#[test]
fn lanes_are_read_back() {
    let c = Color { data: 0x80FF_4020 };
    assert_eq!(c.a(), 0x80);
    assert_eq!(c.r(), 0xFF);
    assert_eq!(c.g(), 0x40);
    assert_eq!(c.b(), 0x20);
}

#[test]
fn lanes_round_trip() {
    for d in [0u32, 1, 0xFFFF_FFFF, 0x1234_5678, 0x8000_0001, 0x00FF_00FF] {
        let c = Color { data: d };
        assert_eq!(Color::rgba(c.r(), c.g(), c.b(), c.a()), c);
    }
}

#[test]
fn bytes_become_colors_least_significant_first() {
    let colors = colors_from_bytes(&[0x03, 0x02, 0x01, 0xFF, 0x10, 0x20, 0x30, 0x40, 0x99]);
    assert_eq!(colors, vec![Color { data: 0xFF01_0203 }, Color { data: 0x4030_2010 }]);
    assert!(colors_from_bytes(&[1, 2, 3]).is_empty());
}

#[test]
fn colors_become_bytes_and_back() {
    let colors = vec![Color { data: 0xFF01_0203 }, Color { data: 0x4030_2010 }];
    let bytes = colors_to_bytes(&colors);
    assert_eq!(bytes, vec![0x03, 0x02, 0x01, 0xFF, 0x10, 0x20, 0x30, 0x40]);
    assert_eq!(colors_from_bytes(&bytes), colors);
}
