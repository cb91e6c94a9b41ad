//! The host boundary. The drawing, audio, disk and trace capabilities are
//! implemented by the host environment, not by this crate: a shim here
//! validates and encodes one call's arguments into a [`HostCall`] value,
//! and the unverified runtime glue hands that value to the matching
//! imported host function. The encoders' contracts pin every argument
//! word down exactly; performing the call is the host's job.

use vstd::prelude::*;

verus! {

use vstd::string::StringSliceAdditionalSpecFns;

/// One fully-encoded invocation of an imported host function.
pub enum HostCall {
    /// Draw a sprite: `blit(spriteData, x, y, width, height, flags)`.
    Blit { sprite: Vec<u8>, x: i32, y: i32, width: u32, height: u32, flags: u32 },
    /// Draw part of a sprite: `blitSub(...)` with a source offset and stride.
    BlitSub {
        sprite: Vec<u8>,
        x: i32,
        y: i32,
        width: u32,
        height: u32,
        src_x: u32,
        src_y: u32,
        stride: u32,
        flags: u32,
    },
    /// Draw a line between two points: `line(x1, y1, x2, y2)`.
    Line { x1: i32, y1: i32, x2: i32, y2: i32 },
    /// Draw a horizontal line: `hline(x, y, len)`.
    Hline { x: i32, y: i32, len: u32 },
    /// Draw a vertical line: `vline(x, y, len)`.
    Vline { x: i32, y: i32, len: u32 },
    /// Draw an oval: `oval(x, y, width, height)`.
    Oval { x: i32, y: i32, width: u32, height: u32 },
    /// Draw a rectangle: `rect(x, y, width, height)`.
    Rect { x: i32, y: i32, width: u32, height: u32 },
    /// Draw text: `textUtf8(ptr, len, x, y)` over the UTF-8 bytes.
    Text { text: Vec<u8>, x: i32, y: i32 },
    /// Play a tone: `tone(frequency, duration, volume, flags)`.
    Tone { frequency: u32, duration: u32, volume: u32, flags: u32 },
    /// Log a diagnostic message: `traceUtf8(ptr, len)` over the UTF-8 bytes.
    Trace { text: Vec<u8> },
    /// Fill a caller buffer of `len` bytes from persistent storage:
    /// `diskr(ptr, len)`.
    DiskRead { size: usize },
    /// Write bytes to persistent storage: `diskw(ptr, len)`.
    DiskWrite { data: Vec<u8> },
}

/// Persistent-storage shims. Capacity and content validation is the host's
/// responsibility: both directions are unranged byte-buffer pass-throughs.
pub struct Disk(pub ());

impl Disk {
    /// Request that the host fill a buffer of `len` bytes from storage.
    pub fn read(&self, len: usize) -> (call: HostCall)
        ensures
            call matches HostCall::DiskRead { size } && size == len,
    {
        HostCall::DiskRead { size: len }
    }

    /// Request that the host write the given bytes to storage.
    pub fn write(&self, buf: &[u8]) -> (call: HostCall)
        ensures
            call matches HostCall::DiskWrite { data } && data@ == buf@,
    {
        HostCall::DiskWrite { data: vstd::slice::slice_to_vec(buf) }
    }
}

/// Encode a diagnostic message for the host's trace import.
pub fn trace(s: &str) -> (call: HostCall)
    ensures
        call matches HostCall::Trace { text } && text@ == s.spec_bytes(),
{
    HostCall::Trace { text: vstd::slice::slice_to_vec(s.as_bytes()) }
}

} // verus!
