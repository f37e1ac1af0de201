use edge_led::MyColor;

#[test]
fn half_brightness_of_white_entry() {
    let c = MyColor(12, 24, 12).half_brightness();
    assert_eq!(c, MyColor(6, 12, 6));
}

#[test]
fn half_brightness_floors_odd_channels() {
    let c = MyColor(13, 25, 1).half_brightness();
    assert_eq!(c, MyColor(6, 12, 0));
}

#[test]
fn half_brightness_of_black_is_black() {
    assert_eq!(MyColor(0, 0, 0).half_brightness(), MyColor(0, 0, 0));
}

#[test]
fn half_brightness_of_full_intensity() {
    assert_eq!(MyColor(255, 255, 255).half_brightness(), MyColor(127, 127, 127));
}

#[test]
fn to_rgb8_keeps_each_channel() {
    let px = MyColor(1, 2, 3).to_rgb8();
    assert_eq!(px.r, 1);
    assert_eq!(px.g, 2);
    assert_eq!(px.b, 3);
}

#[test]
fn to_rgb8_of_off_color_is_zero() {
    let px = MyColor(0, 0, 0).to_rgb8();
    assert_eq!(px, smart_leds::RGB8 { r: 0, g: 0, b: 0 });
}
