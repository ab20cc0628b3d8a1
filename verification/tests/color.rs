use atm0130::color::Color;

#[test]
fn black_packs_to_zero() {
    assert_eq!(Color(0, 0, 0).to_u16(), 0x0000);
}

#[test]
fn white_packs_to_all_ones() {
    assert_eq!(Color(0xFF, 0xFF, 0xFF).to_u16(), 0xFFFF);
}

#[test]
fn packing_formula_exact() {
    // pixel = (B >> 3) | ((G & 0xFC) << 3) | ((R & 0xF8) << 8)
    assert_eq!(Color(0x37, 0xD8, 0xDB).to_u16(), 0x36DB);
    assert_eq!(Color(0xFF, 0x00, 0x00).to_u16(), 0xF800);
    assert_eq!(Color(0x00, 0xFF, 0x00).to_u16(), 0x07E0);
    assert_eq!(Color(0x00, 0x00, 0xFF).to_u16(), 0x001F);
}

#[test]
fn only_top_bits_of_each_channel_matter() {
    // red: top 5 bits, green: top 6 bits, blue: top 5 bits
    assert_eq!(
        Color(0xFF, 0xFF, 0xFF).to_u16(),
        Color(0xF8, 0xFC, 0xF8).to_u16()
    );
    assert_eq!(Color(0x07, 0x03, 0x07).to_u16(), Color(0, 0, 0).to_u16());
    assert_eq!(
        Color(0x12, 0x34, 0x56).to_u16(),
        Color(0x10, 0x34, 0x50).to_u16()
    );
}

#[test]
fn quantized_round_trip_is_identity() {
    let samples = [
        Color(0, 0, 0),
        Color(0xF8, 0xFC, 0xF8),
        Color(0x30, 0xD8, 0xD8),
        Color(0x10, 0x34, 0x50),
        Color(0x08, 0x04, 0x08),
    ];
    for c in samples {
        let back = Color::from_u16(c.to_u16());
        assert_eq!(back, c);
    }
}

#[test]
fn unpack_zeroes_discarded_bits() {
    // a non-quantized color comes back with its low bits cleared
    assert_eq!(
        Color::from_u16(Color(0x12, 0x34, 0x56).to_u16()),
        Color(0x10, 0x34, 0x50)
    );
    assert_eq!(Color::from_u16(Color(7, 3, 7).to_u16()), Color(0, 0, 0));
}
