//! The display surface: a 160x160 screen packed at 2 bits per pixel into
//! 6400 bytes, 40 bytes per row. Pixel (x, y) lives in byte `y*40 + x/4`
//! at bit shift `(x%4)*2`. The single-pixel write path encodes directly
//! into the buffer; every other drawing primitive is encoded as a host
//! call. Writing one pixel preserves the 3 sibling pixels in its byte.

use vstd::prelude::*;
use crate::draw_colors::{DrawColors, spec_slot};
use crate::host::HostCall;

verus! {

use vstd::string::StringSliceAdditionalSpecFns;

/// The byte index holding pixel (x, y).
pub open spec fn spec_pixel_byte_index(x: int, y: int) -> int {
    y * 40 + x / 4
}

/// The bit shift of pixel (x, y)'s 2-bit slot within its byte.
pub open spec fn spec_pixel_shift(x: int) -> u8 {
    (2 * (x % 4)) as u8
}

/// The 2-bit value stored at pixel position p (0..4) of a packed byte.
pub open spec fn spec_code_at(b: u8, p: int) -> u8 {
    (b >> ((2 * p) as u8)) & 3
}

/// The 2-bit stored color a nonzero draw-color selector re-bases to.
pub open spec fn spec_stored_code(sel: u16) -> u8 {
    (((sel & 0xF) - 1) as u16 & 3) as u8
}

/// The buffer after one pixel write with ambient selector `sel`: unchanged
/// when the selector is transparent, else the target byte's 2-bit slot is
/// replaced and every other bit of the buffer is kept.
pub open spec fn spec_pixel_write(buf: Seq<u8>, sel: u16, x: int, y: int) -> Seq<u8> {
    if sel & 0xF == 0 {
        buf
    } else {
        let idx = spec_pixel_byte_index(x, y);
        let shift = spec_pixel_shift(x);
        let code = spec_stored_code(sel);
        buf.update(idx, (code << shift) | (buf[idx] & !(3u8 << shift)))
    }
}

/// How many pixels one byte of sprite data holds: 8 in the 1-bit-per-pixel
/// format (flags bit 0 clear), 4 in the 2-bit-per-pixel format.
pub open spec fn spec_pixels_per_byte(flags: u32) -> int {
    if flags & 1 == 0 {
        8
    } else {
        4
    }
}

/// Does a sprite buffer hold enough data for a `width` x `height` blit?
pub open spec fn spec_sprite_data_sufficient(len: int, width: u32, height: u32, flags: u32) -> bool {
    width * height <= len * spec_pixels_per_byte(flags)
}

/// Does a sprite buffer hold enough data for a sub-sprite blit reaching
/// `src_x + width` columns and `src_y + height` rows at the given stride?
pub open spec fn spec_sub_sprite_data_sufficient(
    len: int,
    width: u32,
    height: u32,
    src_x: u32,
    src_y: u32,
    stride: u32,
    flags: u32,
) -> bool {
    (width + src_x) + (height + src_y) * stride <= len * spec_pixels_per_byte(flags)
}

/// Sprite render flags: bit 0 selects the pixel depth, bits 1..4 flip and
/// rotate the sprite.
#[derive(Clone, Copy, PartialEq, Eq, Structural, Debug)]
pub struct SpriteFlags(pub u32);

impl SpriteFlags {
    /// Sprite data is in a 1-bit-per-pixel format.
    pub fn one_bpp() -> (f: Self)
        ensures
            f.0 == 0b0000,
    {
        SpriteFlags(0b0000)
    }

    /// Sprite data is in a 2-bit-per-pixel format.
    pub fn two_bpp() -> (f: Self)
        ensures
            f.0 == 0b0001,
    {
        SpriteFlags(0b0001)
    }

    /// Flip the sprite horizontally.
    pub fn flip_x() -> (f: Self)
        ensures
            f.0 == 0b0010,
    {
        SpriteFlags(0b0010)
    }

    /// Flip the sprite vertically.
    pub fn flip_y() -> (f: Self)
        ensures
            f.0 == 0b0100,
    {
        SpriteFlags(0b0100)
    }

    /// Rotate the sprite 90 degrees counter-clockwise.
    pub fn rotate() -> (f: Self)
        ensures
            f.0 == 0b1000,
    {
        SpriteFlags(0b1000)
    }

    /// Combine two flag sets.
    pub fn or(self, rhs: Self) -> (f: Self)
        ensures
            f.0 == self.0 | rhs.0,
    {
        SpriteFlags(self.0 | rhs.0)
    }
}

/// Check the sprite capacity contract: enough source bytes for a
/// `width` x `height` blit at the depth the flags select.
pub fn sprite_fits(len: usize, width: u32, height: u32, flags: SpriteFlags) -> (r: bool)
    ensures
        r == spec_sprite_data_sufficient(len as int, width, height, flags.0),
{
    let ppb: u128 = if flags.0 & 1 == 0 {
        8
    } else {
        4
    };
    let w: u128 = width as u128;
    let h: u128 = height as u128;
    proof {
        assert(w * h <= 0xFFFF_FFFFu128 * 0xFFFF_FFFFu128) by (nonlinear_arith)
            requires
                w <= 0xFFFF_FFFFu128,
                h <= 0xFFFF_FFFFu128,
        ;
    }
    w * h <= (len as u128) * ppb
}

/// Check the sub-sprite capacity contract: the furthest source pixel the
/// blit reaches must lie within the source data.
pub fn sub_sprite_fits(
    len: usize,
    width: u32,
    height: u32,
    src_x: u32,
    src_y: u32,
    stride: u32,
    flags: SpriteFlags,
) -> (r: bool)
    ensures
        r == spec_sub_sprite_data_sufficient(len as int, width, height, src_x, src_y, stride, flags.0),
{
    let ppb: u128 = if flags.0 & 1 == 0 {
        8
    } else {
        4
    };
    let rows: u128 = height as u128 + src_y as u128;
    let st: u128 = stride as u128;
    proof {
        assert(rows * st <= 0x2_0000_0000u128 * 0xFFFF_FFFFu128) by (nonlinear_arith)
            requires
                rows <= 0x2_0000_0000u128,
                st <= 0xFFFF_FFFFu128,
        ;
    }
    (width as u128 + src_x as u128) + rows * st <= (len as u128) * ppb
}

/// The packed pixel buffer of the 160x160 display surface.
pub struct FrameBuffer {
    buf: [u8; 6400],
}

impl View for FrameBuffer {
    type V = Seq<u8>;

    closed spec fn view(&self) -> Seq<u8> {
        self.buf@
    }
}

impl FrameBuffer {
    /// A cleared surface, as host memory starts: every byte zero.
    pub fn new() -> (fb: Self)
        ensures
            fb@.len() == 6400,
            forall|i: int| 0 <= i < 6400 ==> fb@[i] == 0u8,
    {
        FrameBuffer { buf: [0u8; 6400] }
    }

    /// The packed byte at a buffer index.
    pub fn byte_at(&self, idx: usize) -> (b: u8)
        requires
            idx < 6400,
        ensures
            b == self@[idx as int],
    {
        self.buf[idx]
    }

    /// The buffer always spans exactly the 6400 bytes of the surface.
    pub proof fn lemma_len(&self)
        ensures
            self@.len() == 6400,
    {
    }

    /// Draw a pixel. Draw-color slot 1 is the ambient pixel color: value 0
    /// means transparent and the call changes nothing; otherwise the
    /// re-based 2-bit color replaces the target pixel's slot and the other
    /// 3 pixels packed into the same byte keep their values.
    pub fn pixel(&mut self, colors: &DrawColors, x: i32, y: i32)
        requires
            0 <= x < 160,
            0 <= y < 160,
        ensures
            final(self)@ == spec_pixel_write(old(self)@, spec_slot(colors.0, 1), x as int, y as int),
    {
        let sel: u16 = colors.get(1);
        proof {
            let cb = colors.0;
            assert((cb >> 0u16) & 0xF == cb & 0xF && (cb & 0xF) & 0xF == cb & 0xF && (cb & 0xF)
                <= 0xF) by (bit_vector);
        }
        if sel == 0 {
            return;
        }
        let code: u8 = ((sel - 1) & 0x3) as u8;
        let xm: usize = (x as usize) % 4;
        let shift: u8 = (2 * xm) as u8;
        let idx: usize = (y as usize) * 40 + (x as usize) / 4;
        let mask: u8 = !(0b11u8 << shift);
        let b0: u8 = self.buf[idx];
        self.buf[idx] = (code << shift) | (b0 & mask);
        proof {
            assert(((sel - 1) as u16 & 0x3) as u8 == spec_stored_code(sel)) by (bit_vector)
                requires
                    sel & 0xF == sel && sel != 0,
            ;
        }
    }

    /// Draw a sprite. The caller contract demands enough source data for
    /// the blit; the encoded host call carries the data and arguments.
    pub fn sprite(
        &mut self,
        sprite: &[u8],
        x: i32,
        y: i32,
        width: u32,
        height: u32,
        flags: SpriteFlags,
    ) -> (call: HostCall)
        requires
            spec_sprite_data_sufficient(sprite@.len() as int, width, height, flags.0),
        ensures
            final(self)@ == old(self)@,
            call matches HostCall::Blit { sprite: data, x: cx, y: cy, width: cw, height: ch, flags: cf }
                && data@ == sprite@ && cx == x && cy == y && cw == width && ch == height && cf
                == flags.0,
    {
        HostCall::Blit {
            sprite: vstd::slice::slice_to_vec(sprite),
            x,
            y,
            width,
            height,
            flags: flags.0,
        }
    }

    /// Draw a part of a sprite. The caller contract demands that the
    /// furthest source pixel reached lies within the source data.
    pub fn sub_sprite(
        &mut self,
        sprite: &[u8],
        x: i32,
        y: i32,
        width: u32,
        height: u32,
        src_x: u32,
        src_y: u32,
        stride: u32,
        flags: SpriteFlags,
    ) -> (call: HostCall)
        requires
            spec_sub_sprite_data_sufficient(
                sprite@.len() as int,
                width,
                height,
                src_x,
                src_y,
                stride,
                flags.0,
            ),
        ensures
            final(self)@ == old(self)@,
            call matches HostCall::BlitSub {
                sprite: data,
                x: cx,
                y: cy,
                width: cw,
                height: ch,
                src_x: csx,
                src_y: csy,
                stride: cst,
                flags: cf,
            } && data@ == sprite@ && cx == x && cy == y && cw == width && ch == height && csx
                == src_x && csy == src_y && cst == stride && cf == flags.0,
    {
        HostCall::BlitSub {
            sprite: vstd::slice::slice_to_vec(sprite),
            x,
            y,
            width,
            height,
            src_x,
            src_y,
            stride,
            flags: flags.0,
        }
    }

    /// Draw a line between two points, in draw color 1.
    pub fn line(&mut self, x1: i32, y1: i32, x2: i32, y2: i32) -> (call: HostCall)
        ensures
            final(self)@ == old(self)@,
            call matches HostCall::Line { x1: a, y1: b, x2: c, y2: d } && a == x1 && b == y1 && c
                == x2 && d == y2,
    {
        HostCall::Line { x1, y1, x2, y2 }
    }

    /// Draw a horizontal line, in draw color 1.
    pub fn hline(&mut self, x: i32, y: i32, len: u32) -> (call: HostCall)
        ensures
            final(self)@ == old(self)@,
            call matches HostCall::Hline { x: a, y: b, len: l } && a == x && b == y && l == len,
    {
        HostCall::Hline { x, y, len }
    }

    /// Draw a vertical line, in draw color 1.
    pub fn vline(&mut self, x: i32, y: i32, len: u32) -> (call: HostCall)
        ensures
            final(self)@ == old(self)@,
            call matches HostCall::Vline { x: a, y: b, len: l } && a == x && b == y && l == len,
    {
        HostCall::Vline { x, y, len }
    }

    /// Draw an oval, filled with draw color 1 and outlined with color 2.
    pub fn oval(&mut self, x: i32, y: i32, width: u32, height: u32) -> (call: HostCall)
        ensures
            final(self)@ == old(self)@,
            call matches HostCall::Oval { x: a, y: b, width: w, height: h } && a == x && b == y && w
                == width && h == height,
    {
        HostCall::Oval { x, y, width, height }
    }

    /// Draw a rectangle, filled with draw color 1 and outlined with color 2.
    pub fn rect(&mut self, x: i32, y: i32, width: u32, height: u32) -> (call: HostCall)
        ensures
            final(self)@ == old(self)@,
            call matches HostCall::Rect { x: a, y: b, width: w, height: h } && a == x && b == y && w
                == width && h == height,
    {
        HostCall::Rect { x, y, width, height }
    }

    /// Draw text in draw color 1 over a color-2 background.
    pub fn text(&mut self, s: &str, x: i32, y: i32) -> (call: HostCall)
        ensures
            final(self)@ == old(self)@,
            call matches HostCall::Text { text, x: a, y: b } && text@ == s.spec_bytes() && a == x
                && b == y,
    {
        HostCall::Text { text: vstd::slice::slice_to_vec(s.as_bytes()), x, y }
    }
}

/// Shift amounts and codes used by the pixel codec, at the byte level:
/// replacing one 2-bit slot leaves the other three slots unchanged.
proof fn lemma_byte_rmw(b: u8, code: u8, t: u8, p: u8)
    by (bit_vector)
    requires
        t < 4,
        p < 4,
        code <= 3,
    ensures
        p == t ==> (((code << (2 * t)) | (b & !(3u8 << (2 * t)))) >> (2 * p)) & 3 == code,
        p != t ==> (((code << (2 * t)) | (b & !(3u8 << (2 * t)))) >> (2 * p)) & 3 == (b >> (2 * p))
            & 3,
{
}

/// A re-based stored color always fits in 2 bits.
proof fn lemma_stored_code_bound(sel: u16)
    by (bit_vector)
    ensures
        spec_stored_code(sel) <= 3,
{
}

/// Law: a pixel write is confined to its own 2-bit slot. Every other byte
/// of the buffer is untouched, and within the target byte the 3 sibling
/// pixels keep their 2-bit values; with a transparent selector nothing
/// changes at all.
pub proof fn lemma_pixel_write_confined(buf: Seq<u8>, sel: u16, x: int, y: int)
    requires
        buf.len() == 6400,
        0 <= x < 160,
        0 <= y < 160,
    ensures
        spec_pixel_write(buf, sel, x, y).len() == 6400,
        sel & 0xF == 0 ==> spec_pixel_write(buf, sel, x, y) == buf,
        forall|i: int|
            0 <= i < 6400 && i != spec_pixel_byte_index(x, y) ==> spec_pixel_write(buf, sel, x, y)[i]
                == buf[i],
        sel & 0xF != 0 ==> spec_code_at(
            spec_pixel_write(buf, sel, x, y)[spec_pixel_byte_index(x, y)],
            x % 4,
        ) == spec_stored_code(sel),
        forall|p: int|
            0 <= p < 4 && p != x % 4 ==> spec_code_at(
                spec_pixel_write(buf, sel, x, y)[spec_pixel_byte_index(x, y)],
                p,
            ) == spec_code_at(buf[spec_pixel_byte_index(x, y)], p),
{
    let idx = spec_pixel_byte_index(x, y);
    assert(0 <= idx < 6400);
    if sel & 0xF != 0 {
        let b = buf[idx];
        let code = spec_stored_code(sel);
        let t = (x % 4) as u8;
        let shift = spec_pixel_shift(x);
        assert(shift == 2 * t);
        lemma_stored_code_bound(sel);
        let nb = spec_pixel_write(buf, sel, x, y)[idx];
        assert(nb == (code << (2 * t)) | (b & !(3u8 << (2 * t))));
        assert forall|p: int| 0 <= p < 4 implies spec_code_at(nb, p) == (if p == x % 4 {
            code
        } else {
            spec_code_at(b, p)
        }) by {
            let p8 = p as u8;
            lemma_byte_rmw(b, code, t, p8);
            assert((2 * p) as u8 == 2 * p8);
        }
    }
}

} // verus!
