use rustifier::brighten::{brighten_pixels, brighten_rgba};
use rustifier::raster::Pixel;

#[test]
fn brighten_identity_zero_addition() {
    for v in [0u8, 1, 50, 100, 200, 254, 255] {
        assert_eq!(brighten_pixels(v, 0), v);
    }
}

#[test]
fn brighten_full_addition_formula() {
    let value: u8 = 100;
    let addition: u8 = 255;
    let expected = value
        .wrapping_sub(value.wrapping_mul(addition) / 255)
        .wrapping_add(addition);
    assert_eq!(brighten_pixels(value, addition), expected);
    assert_eq!(expected, 99);
}

#[test]
fn brighten_exact_values() {
    assert_eq!(brighten_pixels(255, 10), 9);
    assert_eq!(brighten_pixels(0, 10), 10);
    assert_eq!(brighten_pixels(128, 3), 131);
}

#[test]
fn brighten_rgba_per_channel() {
    let red = Pixel { r: 255, g: 0, b: 0, a: 255 };
    let out = brighten_rgba(red, 10);
    assert_eq!(out, Pixel { r: 9, g: 10, b: 10, a: 9 });
}
