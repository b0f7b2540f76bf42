use lumen::Color;

#[test]
fn from_integers_in_range_is_identity() {
    let c = Color::from_integers(255, 0, 128);
    assert_eq!(c, Color { red: 255, green: 0, blue: 128 });
}

#[test]
fn from_integers_wraps_out_of_range() {
    // 300 wraps to 44 and -1 wraps to 255: the documented 8-bit conversion,
    // not clamping and not rejection.
    let c = Color::from_integers(300, -1, 128);
    assert_eq!(c, Color { red: 44, green: 255, blue: 128 });
}

#[test]
fn from_integers_wraps_multiples_of_256_to_zero() {
    let c = Color::from_integers(256, 512, -256);
    assert_eq!(c, Color { red: 0, green: 0, blue: 0 });
}

#[test]
fn from_packed_color_decomposes_channel_bytes() {
    // Red, green, blue, alpha, one byte each from the top; alpha is dropped.
    let c = Color::from_packed_color(0xFF_00_80_7F);
    assert_eq!(c, Color { red: 255, green: 0, blue: 128 });
}

#[test]
fn from_packed_color_black_opaque() {
    let c = Color::from_packed_color(0x00_00_00_FF);
    assert_eq!(c, Color { red: 0, green: 0, blue: 0 });
}

#[test]
fn new_copies_the_channel_bytes() {
    let c = Color::new(1, 2, 3);
    assert_eq!(c, Color { red: 1, green: 2, blue: 3 });
}
