use sw4::color::Color;
use sw4::draw_colors::{DrawColor, DrawColors};

#[test]
fn color_round_trip_24bit() {
    let c = Color::from_u32(0xABCDEF);
    assert_eq!(c.r, 0xAB);
    assert_eq!(c.g, 0xCD);
    assert_eq!(c.b, 0xEF);
    assert_eq!(c.to_u32(), 0xABCDEF);
}

#[test]
fn color_from_u32_discards_top_byte() {
    let c = Color::from_u32(0xFF123456);
    assert_eq!(c.to_u32(), 0x123456);
    assert_eq!(c.to_u32() >> 24, 0);
}

#[test]
fn color_round_trip_edges() {
    assert_eq!(Color::from_u32(0x000000).to_u32(), 0x000000);
    assert_eq!(Color::from_u32(0xFFFFFF).to_u32(), 0xFFFFFF);
    assert_eq!(Color::from_u32(0x010000).to_u32(), 0x010000);
    assert_eq!(Color::from_u32(0x000001).to_u32(), 0x000001);
}

#[test]
fn named_colors() {
    assert_eq!(Color::black().to_u32(), 0x000000);
    assert_eq!(Color::red().to_u32(), 0xFF0000);
    assert_eq!(Color::green().to_u32(), 0x00FF00);
    assert_eq!(Color::blue().to_u32(), 0x0000FF);
    assert_eq!(Color::cyan().to_u32(), 0x00FFFF);
    assert_eq!(Color::magenta().to_u32(), 0xFF00FF);
    assert_eq!(Color::yellow().to_u32(), 0xFFFF00);
    assert_eq!(Color::white().to_u32(), 0xFFFFFF);
}

#[test]
fn draw_colors_set_all() {
    let mut d = DrawColors(0);
    d.set_all(DrawColor::A, DrawColor::B, DrawColor::C, DrawColor::D);
    assert_eq!(d.bits(), 0x4321);
    assert_eq!(d.get(1), 1);
    assert_eq!(d.get(2), 2);
    assert_eq!(d.get(3), 3);
    assert_eq!(d.get(4), 4);
}

#[test]
fn draw_colors_set_slot_preserves_others() {
    let mut d = DrawColors(0);
    d.set_all(DrawColor::A, DrawColor::B, DrawColor::C, DrawColor::D);
    d.set_2(DrawColor::Transparent);
    assert_eq!(d.get(1), 1);
    assert_eq!(d.get(2), 0);
    assert_eq!(d.get(3), 3);
    assert_eq!(d.get(4), 4);

    d.set_1(DrawColor::D);
    assert_eq!(d.get(1), 4);
    assert_eq!(d.get(2), 0);
    assert_eq!(d.get(3), 3);
    assert_eq!(d.get(4), 4);

    d.set_3(DrawColor::B);
    assert_eq!(d.get(1), 4);
    assert_eq!(d.get(2), 0);
    assert_eq!(d.get(3), 2);
    assert_eq!(d.get(4), 4);

    d.set_4(DrawColor::A);
    assert_eq!(d.get(1), 4);
    assert_eq!(d.get(2), 0);
    assert_eq!(d.get(3), 2);
    assert_eq!(d.get(4), 1);
}
