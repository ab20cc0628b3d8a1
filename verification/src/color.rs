//! The color model: 24-bit RGB triples packed into the panel's 16-bit
//! R5G6B5 wire format.

use vstd::prelude::*;

verus! {

/// A color as three 8-bit channels: red, green, blue.
///
/// Immutable value type; the driver converts it to the 16-bit wire format at
/// each use.
#[derive(Clone, Copy, Debug, PartialEq, Eq, Structural)]
pub struct Color(pub u8, pub u8, pub u8);

/// The R5G6B5 packing rule: blue contributes its top 5 bits to bits 0..5,
/// green its top 6 bits to bits 5..11, red its top 5 bits to bits 11..16.
pub open spec fn rgb565(c: Color) -> u16 {
    ((c.2 as u16) >> 3) | (((c.1 as u16) & 0xFC) << 3) | (((c.0 as u16) & 0xF8) << 8)
}

/// The inverse packing: each channel widened back to 8 bits with its
/// discarded low bits left at zero.
pub open spec fn rgb565_unpack(p: u16) -> Color {
    Color((((p >> 8) & 0xF8) as u8), (((p >> 3) & 0xFC) as u8), (((p << 3) & 0xF8) as u8))
}

/// A color whose channels are already quantized to the 5-6-5 grid: the bits
/// that the wire format discards are zero.
pub open spec fn quantized(c: Color) -> bool {
    c.0 & 0x07 == 0 && c.1 & 0x03 == 0 && c.2 & 0x07 == 0
}

impl Color {
    /// Packs the triple into the 16-bit wire pixel format.
    pub fn to_u16(self) -> (p: u16)
        ensures
            p == rgb565(self),
    {
        let mut color = (self.2 as u16) >> 3;
        color |= ((self.1 as u16) & 0xFC) << 3;
        color | ((self.0 as u16) & 0xF8) << 8
    }

    /// Unpacks a wire pixel back into a (quantized) triple.
    pub fn from_u16(p: u16) -> (c: Color)
        ensures
            c == rgb565_unpack(p),
    {
        Color(((p >> 8) & 0xF8) as u8, ((p >> 3) & 0xFC) as u8, ((p << 3) & 0xF8) as u8)
    }
}

/// The wire format reads only the top 5 bits of red, the top 6 bits of
/// green and the top 5 bits of blue: masking the channels down to those
/// bits beforehand does not change the packed pixel.
pub proof fn lemma_rgb565_uses_top_bits(c: Color)
    ensures
        rgb565(c) == rgb565(Color((c.0 & 0xF8) as u8, (c.1 & 0xFC) as u8, (c.2 & 0xF8) as u8)),
{
    let r = c.0;
    let g = c.1;
    let b = c.2;
    assert(((b as u16) >> 3) | (((g as u16) & 0xFC) << 3) | (((r as u16) & 0xF8) << 8)
        == (((b & 0xF8) as u16) >> 3) | ((((g & 0xFC) as u16) & 0xFC) << 3) | ((((r & 0xF8)
        as u16) & 0xF8) << 8)) by (bit_vector);
}

/// Packing is lossless on quantized colors: converting to the wire format
/// and back is the identity.
pub proof fn lemma_rgb565_round_trip(c: Color)
    requires
        quantized(c),
    ensures
        rgb565_unpack(rgb565(c)) == c,
{
    let r = c.0;
    let g = c.1;
    let b = c.2;
    let p = rgb565(c);
    assert((((p >> 8) & 0xF8) as u8) == r && (((p >> 3) & 0xFC) as u8) == g && (((p << 3)
        & 0xF8) as u8) == b) by (bit_vector)
        requires
            p == ((b as u16) >> 3) | (((g as u16) & 0xFC) << 3) | (((r as u16) & 0xF8) << 8),
            r & 0x07 == 0,
            g & 0x03 == 0,
            b & 0x07 == 0,
    ;
}

} // verus!
