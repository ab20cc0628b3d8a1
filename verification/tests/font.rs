use atm0130::font::decode_glyph;
use atm0130::font::encode_glyph;
use atm0130::font::glyph_bytes;

#[test]
fn synthetic_bang_glyph_decodes_to_hand_computed_mask() {
    // hand-computed from the mirrored-column rule: bit t of the packed
    // bytes lands at row t / 5, column 4 - t % 5.  The lit bits of
    // [0x00, 0x21, 0x08, 0x40, 0x10] are t in {10, 15, 20, 25, 35}.
    let glyph = vec![0x00u8, 0x21, 0x08, 0x40, 0x10];
    let mask = decode_glyph(&glyph);
    assert_eq!(mask.len(), 40);
    let mut expected = [false; 40];
    expected[2 * 5 + 4] = true; // t = 10
    expected[3 * 5 + 4] = true; // t = 15
    expected[4 * 5 + 4] = true; // t = 20
    expected[5 * 5 + 4] = true; // t = 25
    expected[7 * 5 + 4] = true; // t = 35
    for k in 0..40 {
        assert_eq!(mask[k], expected[k], "cell {}", k);
    }
}

#[test]
fn stored_bang_glyph_is_a_vertical_bar() {
    // '!' from the table: a bar in column 2, rows 0..4, and a dot at row 5
    let glyph = glyph_bytes(0x21);
    assert_eq!(glyph, vec![0x21u8, 0x08, 0x40, 0x10, 0x00]);
    let mask = decode_glyph(&glyph);
    for row in 0..8 {
        for col in 0..5 {
            let lit = col == 2 && (row <= 3 || row == 5);
            assert_eq!(mask[row * 5 + col], lit, "row {} col {}", row, col);
        }
    }
}

#[test]
fn every_printable_glyph_round_trips() {
    for code in 0x20..=0x7E_i8 {
        let glyph = glyph_bytes(code);
        let mask = decode_glyph(&glyph);
        let back = encode_glyph(&mask);
        assert_eq!(back, glyph, "code {:#x}", code);
    }
}

#[test]
fn out_of_range_codes_get_the_blank_glyph() {
    assert_eq!(glyph_bytes(0x1F), vec![0u8; 5]);
    assert_eq!(glyph_bytes(0x7F), vec![0u8; 5]);
    assert_eq!(glyph_bytes(-1), vec![0u8; 5]);
    assert_eq!(glyph_bytes(0), vec![0u8; 5]);
}

#[test]
fn space_glyph_is_blank() {
    let mask = decode_glyph(&glyph_bytes(0x20));
    assert!(mask.iter().all(|b| !b));
}
