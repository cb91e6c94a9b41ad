use sw4::draw_colors::DrawColor;
use sw4::host::{trace, Disk, HostCall};
use sw4::layout;
use sw4::lifecycle::{Program, Runtime};
use sw4::state::Wasm4;

/// User logic that must never run: its cycle callback aborts the test.
struct MustNotRun;

impl Program for MustNotRun {
    fn setup(_hw: &mut Wasm4) -> Self {
        MustNotRun
    }

    fn cycle(&mut self, _hw: &mut Wasm4) {
        panic!("cycle ran before setup");
    }
}

#[test]
fn cycle_before_setup_is_noop() {
    let mut hw = Wasm4::new();
    let mut rt: Runtime<MustNotRun> = Runtime::new();
    assert!(!rt.ready());
    // The guard is unset: the entry point must neither run user logic nor
    // construct or read the user state.
    assert!(!rt.update(&mut hw));
    assert!(!rt.update(&mut hw));
    assert!(!rt.ready());
    assert!(rt.state().is_none());
}

#[test]
fn setup_sets_guard_sentinel() {
    let mut hw = Wasm4::new();
    let mut rt: Runtime<MustNotRun> = Runtime::new();
    assert!(!rt.ready());
    rt.start(&mut hw);
    assert!(rt.ready());
    assert!(rt.state().is_some());
}

/// The end-to-end scenario program: integer state, counting cycles; the
/// second cycle draws one pixel at (10, 10) with draw-color slot 1 set to
/// palette color A.
struct Counter(i32);

impl Program for Counter {
    fn setup(_hw: &mut Wasm4) -> Self {
        Counter(0)
    }

    fn cycle(&mut self, hw: &mut Wasm4) {
        if self.0 == 1 {
            hw.draw_colors.set_1(DrawColor::A);
            let d = hw.draw_colors;
            hw.frame_buffer.pixel(&d, 10, 10);
        }
        self.0 += 1;
    }
}

#[test]
fn end_to_end_two_cycles() {
    let mut hw = Wasm4::new();
    let mut rt: Runtime<Counter> = Runtime::new();
    rt.start(&mut hw);
    assert_eq!(rt.state().unwrap().0, 0);

    // Cycle 1: increments to 1, draws nothing.
    assert!(rt.update(&mut hw));
    assert_eq!(rt.state().unwrap().0, 1);
    let idx = 10 * 40 + 10 / 4;
    assert_eq!(hw.frame_buffer.byte_at(idx), 0);

    // Cycle 2: draws one pixel at (10, 10) with slot 1 = color A, whose
    // re-based 2-bit code is 0; the byte's other bits stay at their
    // initial zero.
    assert!(rt.update(&mut hw));
    assert_eq!(rt.state().unwrap().0, 2);
    let b = hw.frame_buffer.byte_at(idx);
    assert_eq!((b >> ((10 % 4) * 2)) & 3, 0);
    assert_eq!(b, 0);
}

#[test]
fn state_image_starts_zeroed() {
    let hw = Wasm4::new();
    assert_eq!(hw.palette.a.to_u32(), 0);
    assert_eq!(hw.draw_colors.bits(), 0);
    assert_eq!(hw.mouse.x(), 0);
    assert_eq!(hw.mouse.y(), 0);
    assert!(!hw.gamepads[0].x());
    assert_eq!(hw.netplay.player_idx(), 0);
    assert!(!hw.netplay.enabled());
    for i in 0..6400 {
        assert_eq!(hw.frame_buffer.byte_at(i), 0);
    }
}

#[test]
fn memory_map_constants_tile() {
    assert_eq!(layout::PALETTE_ADDR, layout::BASE_ADDR);
    assert_eq!(layout::DRAW_COLORS_ADDR, layout::PALETTE_ADDR + layout::PALETTE_SIZE);
    assert_eq!(layout::GAMEPADS_ADDR, layout::DRAW_COLORS_ADDR + layout::DRAW_COLORS_SIZE);
    assert_eq!(layout::MOUSE_ADDR, layout::GAMEPADS_ADDR + layout::GAMEPADS_SIZE);
    assert_eq!(layout::SYSTEM_FLAGS_ADDR, layout::MOUSE_ADDR + layout::MOUSE_SIZE);
    assert_eq!(layout::NETPLAY_ADDR, layout::SYSTEM_FLAGS_ADDR + layout::SYSTEM_FLAGS_SIZE);
    assert_eq!(layout::RESERVED_ADDR, layout::NETPLAY_ADDR + layout::NETPLAY_SIZE);
    assert_eq!(layout::FRAME_BUFFER_ADDR, layout::RESERVED_ADDR + layout::RESERVED_SIZE);
    assert_eq!(layout::FRAME_BUFFER_ADDR + layout::FRAME_BUFFER_SIZE, layout::STATE_END);
    assert_eq!(layout::STATE_END, 6560);
}

#[test]
fn disk_and_trace_encode() {
    let disk = Disk(());
    match disk.write(&[1, 2, 3]) {
        HostCall::DiskWrite { data } => assert_eq!(data, vec![1, 2, 3]),
        _ => panic!("expected a disk write"),
    }
    match disk.read(17) {
        HostCall::DiskRead { size } => assert_eq!(size, 17),
        _ => panic!("expected a disk read"),
    }
    match trace("hello") {
        HostCall::Trace { text } => assert_eq!(text, b"hello".to_vec()),
        _ => panic!("expected a trace"),
    }
}
