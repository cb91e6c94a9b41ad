//! Input state views: a gamepad's button mask and the mouse's position and
//! button mask, read exactly as the host lays them out in memory.

use vstd::prelude::*;

verus! {

/// One gamepad's button mask, one bit per button.
#[derive(Clone, Copy, PartialEq, Eq, Structural, Debug)]
pub struct Gamepad(pub u8);

impl Gamepad {
    /// A gamepad view over a raw button mask, as the host writes it.
    pub fn new(bits: u8) -> (g: Self)
        ensures
            g.0 == bits,
    {
        Gamepad(bits)
    }

    /// Is the x button pressed?
    pub fn x(&self) -> (r: bool)
        ensures
            r == (self.0 & 0b0000_0001 != 0),
    {
        self.0 & 0b0000_0001 != 0
    }

    /// Is the z button pressed?
    pub fn z(&self) -> (r: bool)
        ensures
            r == (self.0 & 0b0000_0010 != 0),
    {
        self.0 & 0b0000_0010 != 0
    }

    /// Is the left button pressed?
    pub fn left(&self) -> (r: bool)
        ensures
            r == (self.0 & 0b0001_0000 != 0),
    {
        self.0 & 0b0001_0000 != 0
    }

    /// Is the right button pressed?
    pub fn right(&self) -> (r: bool)
        ensures
            r == (self.0 & 0b0010_0000 != 0),
    {
        self.0 & 0b0010_0000 != 0
    }

    /// Is the up button pressed?
    pub fn up(&self) -> (r: bool)
        ensures
            r == (self.0 & 0b0100_0000 != 0),
    {
        self.0 & 0b0100_0000 != 0
    }

    /// Is the down button pressed?
    pub fn down(&self) -> (r: bool)
        ensures
            r == (self.0 & 0b1000_0000 != 0),
    {
        self.0 & 0b1000_0000 != 0
    }
}

/// The signed 16-bit value two little-endian bytes decode to.
pub open spec fn spec_i16_le(lo: u8, hi: u8) -> i16 {
    ((lo as u16) | ((hi as u16) << 8)) as i16
}

/// Mouse state. The coordinates are kept as raw little-endian byte pairs:
/// a two-byte field has alignment 1, so the enclosing state image keeps the
/// exact byte layout the host dictates instead of being rounded up.
#[derive(Clone, Copy, Debug)]
pub struct Mouse {
    x: [u8; 2],
    y: [u8; 2],
    buttons: u8,
}

impl Mouse {
    /// The X coordinate this view holds, decoded from its two bytes.
    pub closed spec fn spec_x(self) -> i16 {
        spec_i16_le(self.x[0], self.x[1])
    }

    /// The Y coordinate this view holds, decoded from its two bytes.
    pub closed spec fn spec_y(self) -> i16 {
        spec_i16_le(self.y[0], self.y[1])
    }

    /// The raw button mask this view holds.
    pub closed spec fn spec_buttons(self) -> u8 {
        self.buttons
    }

    /// A mouse view with the given coordinates and raw button mask.
    pub fn new(x: i16, y: i16, buttons: u8) -> (m: Self)
        ensures
            m.spec_x() == x,
            m.spec_y() == y,
            m.spec_buttons() == buttons,
    {
        let xu: u16 = x as u16;
        let yu: u16 = y as u16;
        let m = Mouse {
            x: [(xu & 0xFF) as u8, (xu >> 8) as u8],
            y: [(yu & 0xFF) as u8, (yu >> 8) as u8],
            buttons,
        };
        proof {
            lemma_i16_le_round_trip(x);
            lemma_i16_le_round_trip(y);
        }
        m
    }

    /// The raw button mask byte.
    pub fn buttons_raw(&self) -> (b: u8)
        ensures
            b == self.spec_buttons(),
    {
        self.buttons
    }

    /// The X coordinate of the mouse cursor.
    pub fn x(&self) -> (r: i16)
        ensures
            r == self.spec_x(),
    {
        ((self.x[0] as u16) | ((self.x[1] as u16) << 8)) as i16
    }

    /// The Y coordinate of the mouse cursor.
    pub fn y(&self) -> (r: i16)
        ensures
            r == self.spec_y(),
    {
        ((self.y[0] as u16) | ((self.y[1] as u16) << 8)) as i16
    }

    /// Is the left mouse button pressed?
    pub fn left(&self) -> (r: bool)
        ensures
            r == (self.spec_buttons() & 0b001 != 0),
    {
        self.buttons & 0b001 != 0
    }

    /// Is the right mouse button pressed?
    pub fn right(&self) -> (r: bool)
        ensures
            r == (self.spec_buttons() & 0b010 != 0),
    {
        self.buttons & 0b010 != 0
    }

    /// Is the middle mouse button pressed?
    pub fn middle(&self) -> (r: bool)
        ensures
            r == (self.spec_buttons() & 0b100 != 0),
    {
        self.buttons & 0b100 != 0
    }
}

/// Splitting a signed 16-bit value into little-endian bytes and decoding
/// them again gives the value back.
proof fn lemma_i16_le_round_trip(v: i16)
    by (bit_vector)
    ensures
        spec_i16_le(((v as u16) & 0xFF) as u8, ((v as u16) >> 8) as u8) == v,
{
}

} // verus!
