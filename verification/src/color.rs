//! Palette colors: 3 significant bytes (red, green, blue) stored with a
//! 4-byte stride so that 4 colors exactly fill the palette's 16-byte slot.

use vstd::prelude::*;

verus! {

/// One palette entry. The extra padding byte keeps the packed size at
/// 4 bytes, matching the host's 16-byte palette slot for 4 colors.
#[derive(Clone, Copy, PartialEq, Eq, Structural, Debug)]
pub struct Color {
    pub r: u8,
    pub g: u8,
    pub b: u8,
}

/// The color a 32-bit `0x00RRGGBB` word denotes; the top byte is ignored.
pub open spec fn spec_color_of_u32(x: u32) -> Color {
    Color { r: ((x >> 16) & 0xFF) as u8, g: ((x >> 8) & 0xFF) as u8, b: (x & 0xFF) as u8 }
}

/// The 32-bit `0x00RRGGBB` word a color packs to; the top byte is zero.
pub open spec fn spec_color_to_u32(c: Color) -> u32 {
    ((c.r as u32) << 16) | ((c.g as u32) << 8) | (c.b as u32)
}

impl Color {
    /// Decode a `0xRRGGBB` word; the most significant byte is discarded.
    pub fn from_u32(x: u32) -> (c: Self)
        ensures
            c == spec_color_of_u32(x),
    {
        let r: u8 = ((x >> 16) & 0xFF) as u8;
        let g: u8 = ((x >> 8) & 0xFF) as u8;
        let b: u8 = (x & 0xFF) as u8;
        Color { r, g, b }
    }

    /// Encode as a `0x00RRGGBB` word; the most significant byte is always 0.
    pub fn to_u32(self) -> (x: u32)
        ensures
            x == spec_color_to_u32(self),
    {
        ((self.r as u32) << 16) | ((self.g as u32) << 8) | (self.b as u32)
    }

    pub fn black() -> (c: Self)
        ensures
            c == (Color { r: 0x00, g: 0x00, b: 0x00 }),
    {
        Color { r: 0x00, g: 0x00, b: 0x00 }
    }

    pub fn red() -> (c: Self)
        ensures
            c == (Color { r: 0xFF, g: 0x00, b: 0x00 }),
    {
        Color { r: 0xFF, g: 0x00, b: 0x00 }
    }

    pub fn green() -> (c: Self)
        ensures
            c == (Color { r: 0x00, g: 0xFF, b: 0x00 }),
    {
        Color { r: 0x00, g: 0xFF, b: 0x00 }
    }

    pub fn blue() -> (c: Self)
        ensures
            c == (Color { r: 0x00, g: 0x00, b: 0xFF }),
    {
        Color { r: 0x00, g: 0x00, b: 0xFF }
    }

    pub fn cyan() -> (c: Self)
        ensures
            c == (Color { r: 0x00, g: 0xFF, b: 0xFF }),
    {
        Color { r: 0x00, g: 0xFF, b: 0xFF }
    }

    pub fn magenta() -> (c: Self)
        ensures
            c == (Color { r: 0xFF, g: 0x00, b: 0xFF }),
    {
        Color { r: 0xFF, g: 0x00, b: 0xFF }
    }

    pub fn yellow() -> (c: Self)
        ensures
            c == (Color { r: 0xFF, g: 0xFF, b: 0x00 }),
    {
        Color { r: 0xFF, g: 0xFF, b: 0x00 }
    }

    pub fn white() -> (c: Self)
        ensures
            c == (Color { r: 0xFF, g: 0xFF, b: 0xFF }),
    {
        Color { r: 0xFF, g: 0xFF, b: 0xFF }
    }
}

/// Law: decoding any 24-bit color word and re-encoding it is the identity,
/// and the encoded word's most significant byte is always zero.
pub proof fn lemma_color_round_trip(x: u32)
    ensures
        x <= 0xFFFFFF ==> spec_color_to_u32(spec_color_of_u32(x)) == x,
        spec_color_to_u32(spec_color_of_u32(x)) >> 24 == 0,
{
    let c = spec_color_of_u32(x);
    assert(x <= 0xFFFFFF ==> ((((x >> 16) & 0xFF) as u8 as u32) << 16) | ((((x >> 8) & 0xFF) as u8
        as u32) << 8) | ((x & 0xFF) as u8 as u32) == x) by (bit_vector);
    assert((((((x >> 16) & 0xFF) as u8 as u32) << 16) | ((((x >> 8) & 0xFF) as u8 as u32) << 8) | (
    (x & 0xFF) as u8 as u32)) >> 24 == 0) by (bit_vector);
}

/// Law: a color's fields survive the trip through its 32-bit encoding.
pub proof fn lemma_color_to_from_u32(c: Color)
    ensures
        spec_color_of_u32(spec_color_to_u32(c)) == c,
{
    let r = c.r;
    let g = c.g;
    let b = c.b;
    let x = ((r as u32) << 16) | ((g as u32) << 8) | (b as u32);
    assert(((x >> 16) & 0xFF) as u8 == r && ((x >> 8) & 0xFF) as u8 == g && (x & 0xFF) as u8 == b)
        by (bit_vector)
        requires
            x == ((r as u32) << 16) | ((g as u32) << 8) | (b as u32),
    ;
}

/// The game's color palette: 4 colors in the fixed 16-byte slot.
#[derive(Clone, Copy, PartialEq, Eq, Structural, Debug)]
pub struct Palette {
    pub a: Color,
    pub b: Color,
    pub c: Color,
    pub d: Color,
}

} // verus!
