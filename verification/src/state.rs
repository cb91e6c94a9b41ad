//! The state image: one aggregate whose fields stand, in order, for the
//! host's fixed shared-memory map. The program never allocates or frees
//! the real region — the host owns it for the process's whole life — so a
//! value of this type models it: the runtime glue that aliases host memory
//! lives outside the verified library, and everything the logic reads or
//! writes goes through the typed views gathered here.

use vstd::prelude::*;
use crate::color::{Color, Palette};
use crate::draw_colors::{spec_slot, DrawColors};
use crate::flags::{Netplay, SystemFlags};
use crate::framebuffer::{spec_pixel_write, FrameBuffer};
use crate::host::Disk;
use crate::input::{Gamepad, Mouse};
use crate::sound::SoundSystem;

verus! {

/// The game state: every host-shared field, in the memory map's order.
pub struct Wasm4 {
    pub palette: Palette,
    pub draw_colors: DrawColors,
    pub gamepads: [Gamepad; 4],
    pub mouse: Mouse,
    pub system_flags: SystemFlags,
    pub netplay: Netplay,
    /// The reserved padding region of the memory map; no declared purpose.
    pub reserved: [u8; 127],
    pub frame_buffer: FrameBuffer,
    pub sounds: SoundSystem,
    pub disk: Disk,
}

impl Wasm4 {
    /// The state image as host memory starts: every byte zero.
    pub fn new() -> (w: Self)
        ensures
            w.palette == (Palette {
                a: Color { r: 0, g: 0, b: 0 },
                b: Color { r: 0, g: 0, b: 0 },
                c: Color { r: 0, g: 0, b: 0 },
                d: Color { r: 0, g: 0, b: 0 },
            }),
            w.draw_colors.0 == 0,
            forall|i: int| 0 <= i < 4 ==> w.gamepads[i].0 == 0,
            w.mouse.spec_x() == 0,
            w.mouse.spec_y() == 0,
            w.mouse.spec_buttons() == 0,
            w.system_flags.0 == 0,
            w.netplay.0 == 0,
            w.frame_buffer@.len() == 6400,
            forall|i: int| 0 <= i < 6400 ==> w.frame_buffer@[i] == 0u8,
    {
        let zero = Color { r: 0, g: 0, b: 0 };
        Wasm4 {
            palette: Palette { a: zero, b: zero, c: zero, d: zero },
            draw_colors: DrawColors(0),
            gamepads: [Gamepad(0), Gamepad(0), Gamepad(0), Gamepad(0)],
            mouse: Mouse::new(0, 0, 0),
            system_flags: SystemFlags(0),
            netplay: Netplay(0),
            reserved: [0u8; 127],
            frame_buffer: FrameBuffer::new(),
            sounds: SoundSystem { _a: () },
            disk: Disk(()),
        }
    }

    /// Draw a pixel with the ambient draw-color state: as with every
    /// drawing primitive, draw-color slot 1 is consulted at call time,
    /// not passed explicitly. Every field other than the pixel buffer is
    /// untouched.
    pub fn pixel(&mut self, x: i32, y: i32)
        requires
            0 <= x < 160,
            0 <= y < 160,
        ensures
            final(self).frame_buffer@ == spec_pixel_write(
                old(self).frame_buffer@,
                spec_slot(old(self).draw_colors.0, 1),
                x as int,
                y as int,
            ),
            final(self).palette == old(self).palette,
            final(self).draw_colors == old(self).draw_colors,
            final(self).gamepads == old(self).gamepads,
            final(self).mouse == old(self).mouse,
            final(self).system_flags == old(self).system_flags,
            final(self).netplay == old(self).netplay,
            final(self).reserved == old(self).reserved,
    {
        let d = self.draw_colors;
        self.frame_buffer.pixel(&d, x, y);
    }
}

} // verus!
