use raytracer::color::Color;

#[test]
fn channels_of_packed_color() {
    let c = Color::Salmon.value();
    assert_eq!(c, 0xFA8072);
    assert_eq!(Color::r(c), 0xFA);
    assert_eq!(Color::g(c), 0x80);
    assert_eq!(Color::b(c), 0x72);
}

#[test]
fn channels_ignore_bits_above_colour() {
    let c: usize = 0x7F_12_34_56;
    assert_eq!(Color::r(c), 0x12);
    assert_eq!(Color::g(c), 0x34);
    assert_eq!(Color::b(c), 0x56);
}

#[test]
fn palette_values() {
    assert_eq!(Color::Black.value(), 0x000000);
    assert_eq!(Color::White.value(), 0xFFFFFF);
    assert_eq!(Color::Red.value(), 0xFF0000);
    assert_eq!(Color::Green.value(), 0x008000);
    assert_eq!(Color::Blue.value(), 0x0000FF);
    assert_eq!(Color::Gray.value(), 0x808080);
    assert_eq!(Color::SlateGray.value(), 0x708090);
    assert_eq!(Color::Tan.value(), 0xD2B48C);
}

#[test]
fn add_sums_channels() {
    assert_eq!(Color::add(0x102030, 0x010203), 0x112233);
}

#[test]
fn add_saturates_each_channel() {
    assert_eq!(Color::add(0xF0F010, 0x20_05_20), 0xFFF530);
    assert_eq!(Color::add(0xFFFFFF, 0xFFFFFF), 0xFFFFFF);
    assert_eq!(Color::add(0x000000, 0x000000), 0x000000);
}

#[test]
fn rgb_packs_and_caps() {
    assert_eq!(Color::rgb(1, 2, 3), 0x010203);
    assert_eq!(Color::rgb(300, 255, 1000), 0xFFFFFF);
    assert_eq!(Color::rgb(0, 256, 0), 0x00FF00);
}
