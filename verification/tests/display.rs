use sw4::draw_colors::{DrawColor, DrawColors};
use sw4::framebuffer::{sprite_fits, sub_sprite_fits, FrameBuffer, SpriteFlags};
use sw4::host::HostCall;
use sw4::state::Wasm4;

#[test]
fn state_pixel_uses_ambient_draw_color() {
    let mut hw = Wasm4::new();
    // Slot 1 is consulted at call time: selector 4 stores code 3.
    hw.draw_colors.set_1(DrawColor::D);
    hw.pixel(159, 159);
    let idx = 159 * 40 + 159 / 4;
    assert_eq!(hw.frame_buffer.byte_at(idx), 3 << 6);
    // The ambient state itself is untouched.
    assert_eq!(hw.draw_colors.get(1), 4);
}

#[test]
fn pixel_writes_rebased_color() {
    let mut fb = FrameBuffer::new();
    let mut d = DrawColors(0);
    // Selector 3 re-bases to the 2-bit stored color 2.
    d.set_1(DrawColor::C);
    fb.pixel(&d, 5, 7);
    let idx = 7 * 40 + 5 / 4;
    assert_eq!(fb.byte_at(idx), 2 << 2);
}

#[test]
fn pixel_preserves_siblings_in_byte() {
    let mut fb = FrameBuffer::new();
    let mut d = DrawColors(0);
    // Pixel x=4 sits at shift 0; selector 4 stores code 3.
    d.set_1(DrawColor::D);
    fb.pixel(&d, 4, 7);
    let idx = 7 * 40 + 1;
    assert_eq!(fb.byte_at(idx), 0b11);
    // Pixel x=5 shares the byte at shift 2; selector 3 stores code 2.
    d.set_1(DrawColor::C);
    fb.pixel(&d, 5, 7);
    assert_eq!(fb.byte_at(idx), 0b11 | (2 << 2));
    // Pixel x=7 at shift 6; selector 2 stores code 1; earlier pixels kept.
    d.set_1(DrawColor::B);
    fb.pixel(&d, 7, 7);
    assert_eq!(fb.byte_at(idx), 0b11 | (2 << 2) | (1 << 6));
    // Other bytes stay zero.
    assert_eq!(fb.byte_at(idx - 1), 0);
    assert_eq!(fb.byte_at(idx + 1), 0);
}

#[test]
fn pixel_transparent_is_noop() {
    let mut fb = FrameBuffer::new();
    let mut d = DrawColors(0);
    d.set_1(DrawColor::D);
    fb.pixel(&d, 0, 0);
    assert_eq!(fb.byte_at(0), 0b11);
    d.set_1(DrawColor::Transparent);
    fb.pixel(&d, 0, 0);
    fb.pixel(&d, 1, 0);
    assert_eq!(fb.byte_at(0), 0b11);
}

#[test]
fn sprite_capacity_check() {
    // An 8x8 sprite needs 8 bytes at 1 bit per pixel, 16 at 2 bits.
    assert!(sprite_fits(8, 8, 8, SpriteFlags::one_bpp()));
    assert!(!sprite_fits(7, 8, 8, SpriteFlags::one_bpp()));
    assert!(sprite_fits(16, 8, 8, SpriteFlags::two_bpp()));
    assert!(!sprite_fits(15, 8, 8, SpriteFlags::two_bpp()));
    assert!(sprite_fits(0, 0, 0, SpriteFlags::one_bpp()));
}

#[test]
fn sub_sprite_capacity_check() {
    // Reaching src (8+8, 4+4) at stride 16 needs (16 + 8*16) pixels.
    assert!(sub_sprite_fits(18, 8, 4, 8, 4, 16, SpriteFlags::one_bpp()));
    assert!(!sub_sprite_fits(17, 8, 4, 8, 4, 16, SpriteFlags::one_bpp()));
    assert!(sub_sprite_fits(36, 8, 4, 8, 4, 16, SpriteFlags::two_bpp()));
    assert!(!sub_sprite_fits(35, 8, 4, 8, 4, 16, SpriteFlags::two_bpp()));
}

#[test]
fn sprite_encodes_blit() {
    let mut fb = FrameBuffer::new();
    let data = [0xAAu8; 16];
    let flags = SpriteFlags::two_bpp().or(SpriteFlags::flip_x());
    let call = fb.sprite(&data, 3, -2, 8, 8, flags);
    match call {
        HostCall::Blit { sprite, x, y, width, height, flags } => {
            assert_eq!(sprite, vec![0xAA; 16]);
            assert_eq!(x, 3);
            assert_eq!(y, -2);
            assert_eq!(width, 8);
            assert_eq!(height, 8);
            assert_eq!(flags, 0b0011);
        }
        _ => panic!("expected a blit"),
    }
}

#[test]
fn sub_sprite_encodes_blit_sub() {
    let mut fb = FrameBuffer::new();
    let data = [0x55u8; 64];
    let call = fb.sub_sprite(&data, 1, 2, 8, 8, 4, 4, 16, SpriteFlags::two_bpp());
    match call {
        HostCall::BlitSub { sprite, x, y, width, height, src_x, src_y, stride, flags } => {
            assert_eq!(sprite.len(), 64);
            assert_eq!((x, y), (1, 2));
            assert_eq!((width, height), (8, 8));
            assert_eq!((src_x, src_y), (4, 4));
            assert_eq!(stride, 16);
            assert_eq!(flags, 1);
        }
        _ => panic!("expected a sub-blit"),
    }
}

#[test]
fn shape_shims_encode_arguments() {
    let mut fb = FrameBuffer::new();
    assert!(matches!(
        fb.line(1, 2, 3, 4),
        HostCall::Line { x1: 1, y1: 2, x2: 3, y2: 4 }
    ));
    assert!(matches!(fb.hline(-1, 2, 30), HostCall::Hline { x: -1, y: 2, len: 30 }));
    assert!(matches!(fb.vline(5, -6, 7), HostCall::Vline { x: 5, y: -6, len: 7 }));
    assert!(matches!(
        fb.oval(0, 0, 10, 20),
        HostCall::Oval { x: 0, y: 0, width: 10, height: 20 }
    ));
    assert!(matches!(
        fb.rect(9, 8, 7, 6),
        HostCall::Rect { x: 9, y: 8, width: 7, height: 6 }
    ));
}

#[test]
fn text_encodes_utf8_bytes() {
    let mut fb = FrameBuffer::new();
    match fb.text("Hi!", 10, 20) {
        HostCall::Text { text, x, y } => {
            assert_eq!(text, b"Hi!".to_vec());
            assert_eq!((x, y), (10, 20));
        }
        _ => panic!("expected text"),
    }
}

#[test]
fn sprite_flags_combine() {
    let f = SpriteFlags::one_bpp()
        .or(SpriteFlags::flip_x())
        .or(SpriteFlags::flip_y())
        .or(SpriteFlags::rotate());
    assert_eq!(f.0, 0b1110);
}
