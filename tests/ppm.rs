use ray_tracer::ppm::{ppm_color, ppm_header, push_decimal, RGB_MAXIMUM_VALUE};

fn text(bytes: Vec<u8>) -> String {
    String::from_utf8(bytes).unwrap()
}

#[test]
fn header_of_default_image() {
    assert_eq!(text(ppm_header(1200, 800)), "P3\n1200 800\n255\n");
}

#[test]
fn header_of_single_pixel_image() {
    assert_eq!(text(ppm_header(1, 1)), "P3\n1 1\n255\n");
}

#[test]
fn header_of_largest_image() {
    assert_eq!(text(ppm_header(65535, 0)), "P3\n65535 0\n255\n");
}

#[test]
fn color_line_of_black_and_white() {
    assert_eq!(text(ppm_color(0, 0, 0)), "0 0 0\n");
    assert_eq!(text(ppm_color(255, 255, 255)), "255 255 255\n");
}

#[test]
fn color_line_keeps_channel_order() {
    assert_eq!(text(ppm_color(7, 10, 199)), "7 10 199\n");
}

#[test]
fn decimal_appends_to_what_is_there() {
    let mut out = b"x=".to_vec();
    push_decimal(&mut out, 0);
    push_decimal(&mut out, 9);
    push_decimal(&mut out, 10);
    assert_eq!(text(out), "x=0910");
}

#[test]
fn decimal_of_largest_integer() {
    let mut out = Vec::new();
    push_decimal(&mut out, u64::MAX);
    assert_eq!(text(out), "18446744073709551615");
}

#[test]
fn maximum_channel_value() {
    assert_eq!(RGB_MAXIMUM_VALUE, 255);
}
