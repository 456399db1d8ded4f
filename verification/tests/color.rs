use letui::color::{blue_channel, green_channel, pack_rgb, red_channel};

#[test]
fn pack_red_is_high_bits() {
    assert_eq!(pack_rgb(0xFF, 0, 0), 0xFF0000);
    assert_eq!(pack_rgb(0, 0xFF, 0), 0x00FF00);
    assert_eq!(pack_rgb(0, 0, 0xFF), 0x0000FF);
    assert_eq!(pack_rgb(0x12, 0x34, 0x56), 0x123456);
}

#[test]
fn unpack_channels() {
    assert_eq!(red_channel(0x123456), 0x12);
    assert_eq!(green_channel(0x123456), 0x34);
    assert_eq!(blue_channel(0x123456), 0x56);
}

#[test]
fn unpack_ignores_bits_above_24() {
    assert_eq!(red_channel(0xAB_123456), 0x12);
    assert_eq!(green_channel(0xAB_123456), 0x34);
    assert_eq!(blue_channel(0xAB_123456), 0x56);
}

#[test]
fn rgb_round_trip() {
    let triples: [(u8, u8, u8); 6] =
        [(0, 0, 0), (255, 255, 255), (255, 0, 0), (0, 255, 0), (0, 0, 255), (17, 130, 201)];
    for (r, g, b) in triples {
        let v = pack_rgb(r, g, b);
        assert_eq!(red_channel(v), r);
        assert_eq!(green_channel(v), g);
        assert_eq!(blue_channel(v), b);
    }
}
