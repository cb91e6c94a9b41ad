//! System flags and netplay info: single bytes whose bits are individually
//! meaningful. Mutation is a read-modify-write on a bit mask so that the
//! sibling bit is preserved.

use vstd::prelude::*;

verus! {

/// The two system flag bits: bit 0 preserves the frame buffer between
/// cycles, bit 1 hides the gamepad overlay on mobile.
#[derive(Clone, Copy, PartialEq, Eq, Structural, Debug)]
pub struct SystemFlags(pub u8);

impl SystemFlags {
    /// A flags view over a raw byte, as the host keeps it.
    pub fn new(bits: u8) -> (f: Self)
        ensures
            f.0 == bits,
    {
        SystemFlags(bits)
    }

    /// Set whether the frame buffer should be kept between cycles,
    /// preserving the overlay bit.
    pub fn preserve_framebuffer(&mut self, b: bool)
        ensures
            final(self).0 == (old(self).0 & 0b10) | (if b {
                1u8
            } else {
                0u8
            }),
            final(self).0 & 0b01 == (if b {
                1u8
            } else {
                0u8
            }),
            final(self).0 & 0b10 == old(self).0 & 0b10,
    {
        let v: u8 = if b {
            1
        } else {
            0
        };
        self.0 = (self.0 & 0b10) | v;
        proof {
            let bits = old(self).0;
            assert(((bits & 0b10) | v) & 0b01 == v && ((bits & 0b10) | v) & 0b10 == bits & 0b10)
                by (bit_vector)
                requires
                    v == 0 || v == 1,
            ;
        }
    }

    /// Set whether to hide the gamepad overlay on mobile, preserving the
    /// frame buffer bit.
    pub fn hide_gamepad_overlay(&mut self, b: bool)
        ensures
            final(self).0 == (old(self).0 & 0b01) | ((if b {
                1u8
            } else {
                0u8
            }) << 1),
            final(self).0 & 0b10 == (if b {
                2u8
            } else {
                0u8
            }),
            final(self).0 & 0b01 == old(self).0 & 0b01,
    {
        let v: u8 = if b {
            1
        } else {
            0
        };
        self.0 = (self.0 & 0b01) | (v << 1);
        proof {
            let bits = old(self).0;
            assert(((bits & 0b01) | (v << 1)) & 0b10 == (if v == 1 {
                2u8
            } else {
                0u8
            }) && ((bits & 0b01) | (v << 1)) & 0b01 == bits & 0b01) by (bit_vector)
                requires
                    v == 0 || v == 1,
            ;
        }
    }
}

/// Netplay info: a 2-bit local player index and an enabled flag.
#[derive(Clone, Copy, PartialEq, Eq, Structural, Debug)]
pub struct Netplay(pub u8);

impl Netplay {
    /// A netplay view over a raw byte, as the host writes it.
    pub fn new(bits: u8) -> (n: Self)
        ensures
            n.0 == bits,
    {
        Netplay(bits)
    }

    /// The client's player index, in the range 0 to 3: the index into the
    /// gamepads array for the local player.
    pub fn player_idx(&self) -> (r: u8)
        ensures
            r == self.0 & 0b11,
            r <= 3,
    {
        let r = self.0 & 0b11;
        proof {
            let bits = self.0;
            assert(bits & 0b11 <= 3) by (bit_vector);
        }
        r
    }

    /// Is netplay enabled?
    pub fn enabled(&self) -> (r: bool)
        ensures
            r == (self.0 & 0b100 != 0),
    {
        self.0 & 0b100 != 0
    }
}

} // verus!
