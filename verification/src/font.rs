//! The bitmap font: a 5x8 glyph for every printable ASCII character,
//! bit-packed five bytes per glyph, and the decoding rule that turns the
//! packed bytes into a monochrome mask.
//!
//! The packing is not plain row-major bit order: within each row the
//! columns are traversed in reverse (see [`glyph_bit`]).  The rule is kept
//! exactly as the table was authored.

use vstd::prelude::*;

verus! {

/// Width of a font cell in pixels.
pub const FONT_WIDTH: u8 = 5;

/// Height of a font cell in pixels.
pub const FONT_HEIGHT: u8 = 8;

/// The packed glyph table: 5 bytes for each of the 95 printable ASCII
/// characters, starting at code 0x20.  Opaque data, kept verbatim.
const CHARS: [u8; 475] = [
    0x00, 0x00, 0x00, 0x00, 0x00, 0x21, 0x08, 0x40, 0x10, 0x00, 0x52, 0x94, 0x00, 0x00, 0x00, 0x52,
    0x95, 0xF5, 0x7D, 0x4A, 0x23, 0xE8, 0xE2, 0xF8, 0x80, 0xC6, 0x44, 0x44, 0x4C, 0x60, 0x64, 0xA8,
    0x8A, 0xC9, 0xA0, 0x61, 0x10, 0x00, 0x00, 0x00, 0x11, 0x10, 0x84, 0x10, 0x40, 0x41, 0x04, 0x21,
    0x11, 0x00, 0x01, 0x2A, 0xEA, 0x90, 0x00, 0x01, 0x08, 0xE2, 0x10, 0x00, 0x00, 0x00, 0x06, 0x11,
    0x00, 0x00, 0x01, 0xF0, 0x00, 0x00, 0x00, 0x00, 0x00, 0x63, 0x00, 0x00, 0x44, 0x44, 0x40, 0x00,
    0x74, 0x67, 0x5C, 0xC5, 0xC0, 0x23, 0x08, 0x42, 0x11, 0xC0, 0x74, 0x42, 0x22, 0x23, 0xE0, 0xF8,
    0x88, 0x20, 0xC5, 0xC0, 0x11, 0x95, 0x2F, 0x88, 0x40, 0xFC, 0x3C, 0x10, 0xC5, 0xC0, 0x32, 0x11,
    0xE8, 0xC5, 0xC0, 0xF8, 0x44, 0x44, 0x21, 0x00, 0x74, 0x62, 0xE8, 0xC5, 0xC0, 0x74, 0x62, 0xF0,
    0x89, 0x80, 0x03, 0x18, 0x06, 0x30, 0x00, 0x03, 0x18, 0x06, 0x11, 0x00, 0x11, 0x11, 0x04, 0x10,
    0x40, 0x00, 0x3E, 0x0F, 0x80, 0x00, 0x41, 0x04, 0x11, 0x11, 0x00, 0x74, 0x42, 0x22, 0x00, 0x80,
    0x74, 0x42, 0xDA, 0xD5, 0xC0, 0x74, 0x63, 0x1F, 0xC6, 0x20, 0xF4, 0x63, 0xE8, 0xC7, 0xC0, 0x74,
    0x61, 0x08, 0x45, 0xC0, 0xE4, 0xA3, 0x18, 0xCB, 0x80, 0xFC, 0x21, 0xE8, 0x43, 0xE0, 0xFC, 0x21,
    0xE8, 0x42, 0x00, 0x74, 0x61, 0x78, 0xC5, 0xE0, 0x8C, 0x63, 0xF8, 0xC6, 0x20, 0x71, 0x08, 0x42,
    0x11, 0xC0, 0x38, 0x84, 0x21, 0x49, 0x80, 0x8C, 0xA9, 0x8A, 0x4A, 0x20, 0x84, 0x21, 0x08, 0x43,
    0xE0, 0x8E, 0xEB, 0x58, 0xC6, 0x20, 0x8C, 0x73, 0x59, 0xC6, 0x20, 0x74, 0x63, 0x18, 0xC5, 0xC0,
    0xF4, 0x63, 0xE8, 0x42, 0x00, 0x74, 0x63, 0x1A, 0xC9, 0xA0, 0xF4, 0x63, 0xEA, 0x4A, 0x20, 0x74,
    0x20, 0xE0, 0x87, 0xC0, 0xF9, 0x08, 0x42, 0x10, 0x80, 0x8C, 0x63, 0x18, 0xC5, 0xC0, 0x8C, 0x63,
    0x18, 0xA8, 0x80, 0x8C, 0x63, 0x5A, 0xD5, 0x40, 0x8C, 0x54, 0x45, 0x46, 0x20, 0x8C, 0x62, 0xA2,
    0x10, 0x80, 0xF8, 0x44, 0x44, 0x43, 0xE0, 0x72, 0x10, 0x84, 0x21, 0xC0, 0x8A, 0xBE, 0x4F, 0x90,
    0x80, 0x70, 0x84, 0x21, 0x09, 0xC0, 0x22, 0xA2, 0x00, 0x00, 0x00, 0x00, 0x00, 0x00, 0x03, 0xE0,
    0x41, 0x04, 0x00, 0x00, 0x00, 0x00, 0x1C, 0x17, 0xC5, 0xE0, 0x84, 0x2D, 0x98, 0xC7, 0xC0, 0x00,
    0x1D, 0x08, 0x45, 0xC0, 0x08, 0x5B, 0x38, 0xC5, 0xE0, 0x00, 0x1D, 0x1F, 0xC1, 0xC0, 0x32, 0x51,
    0xC4, 0x21, 0x00, 0x03, 0xE3, 0x17, 0x85, 0xC0, 0x84, 0x2D, 0x98, 0xC6, 0x20, 0x20, 0x18, 0x42,
    0x11, 0xC0, 0x10, 0x0C, 0x21, 0x49, 0x80, 0x84, 0x25, 0x4C, 0x52, 0x40, 0x61, 0x08, 0x42, 0x11,
    0xC0, 0x00, 0x35, 0x5A, 0xC6, 0x20, 0x00, 0x2D, 0x98, 0xC6, 0x20, 0x00, 0x1D, 0x18, 0xC5, 0xC0,
    0x00, 0x3D, 0x1F, 0x42, 0x00, 0x00, 0x1B, 0x37, 0x84, 0x20, 0x00, 0x2D, 0x98, 0x42, 0x00, 0x00,
    0x1D, 0x07, 0x07, 0xC0, 0x42, 0x38, 0x84, 0x24, 0xC0, 0x00, 0x23, 0x18, 0xCD, 0xA0, 0x00, 0x23,
    0x18, 0xA8, 0x80, 0x00, 0x23, 0x1A, 0xD5, 0x40, 0x00, 0x22, 0xA2, 0x2A, 0x20, 0x00, 0x23, 0x17,
    0x85, 0xC0, 0x00, 0x3E, 0x22, 0x23, 0xE0, 0x11, 0x08, 0x82, 0x10, 0x40, 0x21, 0x08, 0x42, 0x10,
    0x80, 0x41, 0x08, 0x22, 0x11, 0x00, 0x00, 0x11, 0x51, 0x00, 0x00,
];

/// True of codes that have a glyph in the table.
pub open spec fn printable(code: int) -> bool {
    0x20 <= code <= 0x7E
}

/// The five packed bytes for a character code.  A printable code selects
/// its slice of the table; any other code yields the blank sentinel glyph
/// (all bits clear), so characters outside the table render as background.
pub closed spec fn glyph_of(code: int) -> Seq<u8> {
    if printable(code) {
        Seq::new(5, |i: int| CHARS[5 * (code - 0x20) + i])
    } else {
        seq![0u8, 0u8, 0u8, 0u8, 0u8]
    }
}

pub broadcast proof fn lemma_glyph_of_len(code: int)
    ensures
        (#[trigger] glyph_of(code)).len() == 5,
{
}

/// The decoding rule for one cell pixel.  For target row `row` in [0,8) and
/// target column `col` in [0,5), the linear bit index is
/// `row * 5 + (4 - col)` — columns are mirrored within each row's bit group
/// — and the bit is the `(index % 8)`-th most significant bit of byte
/// `index / 8`.
pub open spec fn glyph_bit(g: Seq<u8>, row: int, col: int) -> bool {
    let t = row * 5 + (4 - col);
    (g[t / 8] & (0x80u8 >> ((t % 8) as u8))) != 0
}

/// The full 5x8 monochrome mask of a glyph, row-major: entry `row * 5 + col`
/// tells whether that cell pixel is lit.
pub open spec fn decoded_mask(g: Seq<u8>) -> Seq<bool> {
    Seq::new(40, |m: int| glyph_bit(g, m / 5, m % 5))
}

/// Where bit `t` of the packed glyph lands in the row-major mask: same row,
/// mirrored column.
pub open spec fn mask_index(t: int) -> int {
    (t / 5) * 5 + (4 - t % 5)
}

/// The first `b` of the eight bit terms of byte `k`, accumulated in order:
/// term `b` contributes `0x80 >> b` when the mask holds bit `8k + b` at its
/// mirrored-column position.
pub open spec fn encode_prefix(mask: Seq<bool>, k: int, b: int) -> u8
    decreases b,
{
    if b <= 0 {
        0u8
    } else {
        encode_prefix(mask, k, b - 1) | (if mask[mask_index(8 * k + (b - 1))] {
            (0x80u8 >> ((b - 1) as u8))
        } else {
            0u8
        })
    }
}

/// Byte `k` of a glyph, re-derived from a row-major 5x8 mask by gathering
/// bits `8k` .. `8k+7` from their mirrored-column positions.
pub open spec fn encode_byte(mask: Seq<bool>, k: int) -> u8 {
    encode_prefix(mask, k, 8)
}

/// Looks up the five packed bytes for a character code.
pub fn glyph_bytes(c: i8) -> (g: Vec<u8>)
    ensures
        g@ == glyph_of(c as int),
{
    let mut g: Vec<u8> = Vec::new();
    if 0x20 <= c && c <= 0x7E {
        let base: usize = 5 * ((c - 0x20) as usize);
        let mut i: usize = 0;
        while i < 5
            invariant
                0x20 <= c <= 0x7E,
                base == 5 * (c - 0x20),
                i <= 5,
                g@.len() == i,
                forall|m: int| 0 <= m < i ==> g@[m] == CHARS[5 * (c - 0x20) + m],
            decreases 5 - i,
        {
            g.push(CHARS[base + i]);
            i += 1;
        }
        assert(g@ =~= glyph_of(c as int));
    } else {
        g.push(0);
        g.push(0);
        g.push(0);
        g.push(0);
        g.push(0);
        assert(g@ =~= glyph_of(c as int));
    }
    g
}

/// Decodes five packed bytes into the row-major 5x8 mask.
pub fn decode_glyph(g: &Vec<u8>) -> (mask: Vec<bool>)
    requires
        g@.len() == 5,
    ensures
        mask@ == decoded_mask(g@),
{
    let mut mask: Vec<bool> = Vec::new();
    let mut row: usize = 0;
    while row < 8
        invariant
            g@.len() == 5,
            row <= 8,
            mask@.len() == row * 5,
            forall|m: int| 0 <= m < mask@.len() ==> mask@[m] == decoded_mask(g@)[m],
        decreases 8 - row,
    {
        let mut col: usize = 0;
        while col < 5
            invariant
                g@.len() == 5,
                row < 8,
                col <= 5,
                mask@.len() == row * 5 + col,
                forall|m: int| 0 <= m < mask@.len() ==> mask@[m] == decoded_mask(g@)[m],
            decreases 5 - col,
        {
            let t: usize = row * 5 + 4 - col;
            let lit = g[t / 8] & (0x80u8 >> ((t % 8) as u8)) != 0;
            assert(lit == glyph_bit(g@, row as int, col as int));
            assert(decoded_mask(g@)[row * 5 + col] == glyph_bit(g@, row as int, col as int));
            mask.push(lit);
            col += 1;
        }
        row += 1;
    }
    assert(mask@ =~= decoded_mask(g@));
    mask
}

/// Re-derives the five packed bytes from a row-major 5x8 mask.
pub fn encode_glyph(mask: &Vec<bool>) -> (g: Vec<u8>)
    requires
        mask@.len() == 40,
    ensures
        g@.len() == 5,
        forall|k: int| 0 <= k < 5 ==> g@[k] == encode_byte(mask@, k),
{
    let mut g: Vec<u8> = Vec::new();
    let mut k: usize = 0;
    while k < 5
        invariant
            mask@.len() == 40,
            k <= 5,
            g@.len() == k,
            forall|m: int| 0 <= m < k ==> g@[m] == encode_byte(mask@, m),
        decreases 5 - k,
    {
        let mut byte: u8 = 0;
        let mut b: usize = 0;
        while b < 8
            invariant
                mask@.len() == 40,
                k < 5,
                b <= 8,
                byte == encode_prefix(mask@, k as int, b as int),
            decreases 8 - b,
        {
            let t: usize = 8 * k + b;
            let m: usize = (t / 5) * 5 + 4 - t % 5;
            assert(m == mask_index(8 * (k as int) + b));
            if mask[m] {
                byte = byte | (0x80u8 >> (b as u8));
            } else {
                proof {
                    lemma_u8_or_zero(byte);
                }
            }
            b += 1;
        }
        g.push(byte);
        k += 1;
    }
    g
}

/// Or-ing zero into a byte leaves it unchanged.
proof fn lemma_u8_or_zero(x: u8)
    ensures
        x | 0u8 == x,
{
    assert(x | 0u8 == x) by (bit_vector);
}

/// One byte of the round trip: bit `8k + b` of the decoded mask sits at its
/// mirrored-column position and equals bit `b` (most significant first) of
/// byte `k`, so gathering the eight bits back yields the byte.
proof fn lemma_encode_byte(g: Seq<u8>, k: int)
    requires
        g.len() == 5,
        0 <= k < 5,
    ensures
        encode_byte(decoded_mask(g), k) == g[k],
{
    let mask = decoded_mask(g);
    let x = g[k];
    assert forall|b: int| 0 <= b < 8 implies #[trigger] mask[mask_index(8 * k + b)] == ((x & (
    0x80u8 >> (b as u8))) != 0) by {
        let t = 8 * k + b;
        let m = mask_index(t);
        assert(0 <= 4 - t % 5 < 5);
        assert(m / 5 == t / 5 && m % 5 == 4 - t % 5);
        assert(0 <= m < 40);
        assert(mask[m] == glyph_bit(g, m / 5, m % 5));
        assert((m / 5) * 5 + (4 - m % 5) == t);
        assert(t / 8 == k && t % 8 == b);
    }
    assert((x & (0x80u8 >> 0u8) == (0x80u8 >> 0u8) || x & (0x80u8 >> 0u8) == 0u8) && (x & (
    0x80u8 >> 1u8) == (0x80u8 >> 1u8) || x & (0x80u8 >> 1u8) == 0u8) && (x & (0x80u8 >> 2u8) == (
    0x80u8 >> 2u8) || x & (0x80u8 >> 2u8) == 0u8) && (x & (0x80u8 >> 3u8) == (0x80u8 >> 3u8) || x
        & (0x80u8 >> 3u8) == 0u8) && (x & (0x80u8 >> 4u8) == (0x80u8 >> 4u8) || x & (0x80u8
        >> 4u8) == 0u8) && (x & (0x80u8 >> 5u8) == (0x80u8 >> 5u8) || x & (0x80u8 >> 5u8) == 0u8)
        && (x & (0x80u8 >> 6u8) == (0x80u8 >> 6u8) || x & (0x80u8 >> 6u8) == 0u8) && (x & (0x80u8
        >> 7u8) == (0x80u8 >> 7u8) || x & (0x80u8 >> 7u8) == 0u8)) by (bit_vector);
    let e0: u8 = 0u8 | (x & (0x80u8 >> 0u8));
    let e1: u8 = e0 | (x & (0x80u8 >> 1u8));
    let e2: u8 = e1 | (x & (0x80u8 >> 2u8));
    let e3: u8 = e2 | (x & (0x80u8 >> 3u8));
    let e4: u8 = e3 | (x & (0x80u8 >> 4u8));
    let e5: u8 = e4 | (x & (0x80u8 >> 5u8));
    let e6: u8 = e5 | (x & (0x80u8 >> 6u8));
    let e7: u8 = e6 | (x & (0x80u8 >> 7u8));
    assert(encode_prefix(mask, k, 0) == 0u8);
    assert(encode_prefix(mask, k, 1) == e0);
    assert(encode_prefix(mask, k, 2) == e1);
    assert(encode_prefix(mask, k, 3) == e2);
    assert(encode_prefix(mask, k, 4) == e3);
    assert(encode_prefix(mask, k, 5) == e4);
    assert(encode_prefix(mask, k, 6) == e5);
    assert(encode_prefix(mask, k, 7) == e6);
    assert(encode_prefix(mask, k, 8) == e7);
    assert(e7 == x) by (bit_vector)
        requires
            e0 == 0u8 | (x & (0x80u8 >> 0u8)),
            e1 == e0 | (x & (0x80u8 >> 1u8)),
            e2 == e1 | (x & (0x80u8 >> 2u8)),
            e3 == e2 | (x & (0x80u8 >> 3u8)),
            e4 == e3 | (x & (0x80u8 >> 4u8)),
            e5 == e4 | (x & (0x80u8 >> 5u8)),
            e6 == e5 | (x & (0x80u8 >> 6u8)),
            e7 == e6 | (x & (0x80u8 >> 7u8)),
    ;
}

/// Decoding a glyph's five packed bytes into the 5x8 mask and re-deriving
/// the packed form from the mask reproduces the stored bytes exactly: the
/// mirrored-column decoding rule loses no bit of the table.
pub proof fn lemma_glyph_round_trip(g: Seq<u8>)
    requires
        g.len() == 5,
    ensures
        forall|k: int| 0 <= k < 5 ==> #[trigger] encode_byte(decoded_mask(g), k) == g[k],
{
    assert forall|k: int| 0 <= k < 5 implies #[trigger] encode_byte(decoded_mask(g), k) == g[k] by {
        lemma_encode_byte(g, k);
    }
}

/// The round trip holds in particular for every glyph of the table: for
/// any character code, decoding its glyph and re-deriving the packed
/// bytes reproduces the stored 40-bit mask.
pub proof fn lemma_table_glyph_round_trip(code: int)
    ensures
        forall|k: int|
            0 <= k < 5 ==> #[trigger] encode_byte(decoded_mask(glyph_of(code)), k) == glyph_of(
                code,
            )[k],
{
    lemma_glyph_of_len(code);
    lemma_glyph_round_trip(glyph_of(code));
}

} // verus!
