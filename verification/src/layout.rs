//! The host's fixed memory map. The state image mirrors this layout
//! byte-for-byte: each field's byte offset and size is dictated by the
//! host, and the fields must tile the 6560-byte region exactly, starting
//! at the 4-byte base offset. The tiling is checked here once and for all,
//! so any drift in a declared size is a verification failure, never a
//! runtime one.

use vstd::prelude::*;

verus! {

/// The guard byte's address, outside the main state image.
pub const GUARD_ADDR: usize = 0x0001;

/// The base address of the state image.
pub const BASE_ADDR: usize = 0x0004;

/// Byte offset of the palette: 4 colors at a 4-byte stride.
pub const PALETTE_ADDR: usize = 0x0004;

/// Packed size of one palette color.
pub const COLOR_SIZE: usize = 4;

/// Packed size of the palette.
pub const PALETTE_SIZE: usize = 16;

/// Byte offset of the nibble-packed draw-color selectors.
pub const DRAW_COLORS_ADDR: usize = 0x0014;

/// Packed size of the draw-color selector word.
pub const DRAW_COLORS_SIZE: usize = 2;

/// Byte offset of the 4 gamepad button masks.
pub const GAMEPADS_ADDR: usize = 0x0016;

/// Packed size of the 4 gamepad button masks.
pub const GAMEPADS_SIZE: usize = 4;

/// Byte offset of the mouse state: x, y and buttons.
pub const MOUSE_ADDR: usize = 0x001A;

/// Packed size of the mouse state.
pub const MOUSE_SIZE: usize = 5;

/// Byte offset of the system flags byte.
pub const SYSTEM_FLAGS_ADDR: usize = 0x001F;

/// Packed size of the system flags.
pub const SYSTEM_FLAGS_SIZE: usize = 1;

/// Byte offset of the netplay info byte.
pub const NETPLAY_ADDR: usize = 0x0020;

/// Packed size of the netplay info.
pub const NETPLAY_SIZE: usize = 1;

/// Byte offset of the reserved region.
pub const RESERVED_ADDR: usize = 0x0021;

/// Size of the reserved region.
pub const RESERVED_SIZE: usize = 127;

/// Byte offset of the packed pixel buffer.
pub const FRAME_BUFFER_ADDR: usize = 0x00A0;

/// Size of the packed pixel buffer: 40 bytes per row, 160 rows.
pub const FRAME_BUFFER_SIZE: usize = 6400;

/// Total addressable state size: the end of the memory map.
pub const STATE_END: usize = 6560;

/// The sentinel the guard byte holds once one-time setup has completed.
pub const GUARD_SET: u8 = 1;

/// Law: the state image's fields tile the host's memory map exactly.
/// Four colors fill the 16-byte palette slot; each field begins where the
/// previous one ends, starting at the 4-byte base; and the pixel buffer is
/// the final 6400 bytes, ending exactly at the 6560-byte boundary. The
/// guard byte lies outside the image.
pub proof fn lemma_memory_map_tiles()
    ensures
        4 * COLOR_SIZE == PALETTE_SIZE,
        PALETTE_ADDR == BASE_ADDR,
        DRAW_COLORS_ADDR == PALETTE_ADDR + PALETTE_SIZE,
        GAMEPADS_ADDR == DRAW_COLORS_ADDR + DRAW_COLORS_SIZE,
        MOUSE_ADDR == GAMEPADS_ADDR + GAMEPADS_SIZE,
        SYSTEM_FLAGS_ADDR == MOUSE_ADDR + MOUSE_SIZE,
        NETPLAY_ADDR == SYSTEM_FLAGS_ADDR + SYSTEM_FLAGS_SIZE,
        RESERVED_ADDR == NETPLAY_ADDR + NETPLAY_SIZE,
        FRAME_BUFFER_ADDR == RESERVED_ADDR + RESERVED_SIZE,
        FRAME_BUFFER_ADDR + FRAME_BUFFER_SIZE == STATE_END,
        FRAME_BUFFER_SIZE == 40 * 160,
        GUARD_ADDR < BASE_ADDR,
{
}

} // verus!
