use raytracer::color::{Color, ColorType};

#[test]
fn new_keeps_the_three_channels() {
    assert_eq!(Color::new(1, 2, 3), ColorType { r: 1, g: 2, b: 3 });
    assert_eq!(Color::new(255, 0, 128), ColorType { r: 255, g: 0, b: 128 });
}

#[test]
fn named_colours_have_their_table_values() {
    assert_eq!(Color::Red.rgb(), ColorType { r: 255, g: 0, b: 0 });
    assert_eq!(Color::DarkRed.rgb(), ColorType { r: 139, g: 0, b: 0 });
    assert_eq!(Color::LightRed.rgb(), ColorType { r: 255, g: 102, b: 102 });
    assert_eq!(Color::DarkGreen.rgb(), ColorType { r: 0, g: 100, b: 0 });
    assert_eq!(Color::LightBlue.rgb(), ColorType { r: 173, g: 216, b: 230 });
    assert_eq!(Color::DarkOrange.rgb(), ColorType { r: 255, g: 140, b: 0 });
    assert_eq!(Color::DarkGray.rgb(), ColorType { r: 105, g: 105, b: 105 });
    assert_eq!(Color::DarkPurple.rgb(), ColorType { r: 75, g: 0, b: 130 });
    assert_eq!(Color::DarkBrown.rgb(), ColorType { r: 92, g: 51, b: 23 });
    assert_eq!(Color::LightBrown.rgb(), ColorType { r: 210, g: 180, b: 140 });
}

#[test]
fn black_comes_plain_and_dark() {
    assert_eq!(Color::Black.rgb(), ColorType { r: 0, g: 0, b: 0 });
    assert_eq!(Color::DarkBlack.rgb(), Color::Black.rgb());
    assert_eq!(Color::LightBlack.rgb(), ColorType { r: 64, g: 64, b: 64 });
    assert_eq!(Color::LightWhite.rgb(), Color::White.rgb());
    assert_eq!(Color::LightGray.rgb(), Color::DarkWhite.rgb());
}
