use rand::rngs::StdRng;
use rand::SeedableRng;
use rustifier::config::Config;
use rustifier::corrupter::{CorruptError, Corrupter};
use rustifier::raster::{Image, Pixel};
use rustifier::sampler::{offset_i64, offset_u32};

fn zero_config() -> Config {
    Config {
        magnitude: 0,
        block_height: 1,
        block_offset: 0,
        stride_magnitude: 0,
        lr: 0,
        lg: 0,
        lb: 0,
        std_offset: 0,
        brightness_addition: 0,
        mean_abberation: 0,
        std_abberation: 0,
    }
}

fn solid(width: u32, height: u32, p: Pixel) -> Image {
    let n = (width as usize) * (height as usize);
    let mut pixels = Vec::new();
    for _ in 0..n {
        pixels.push(p);
    }
    Image::from_pixels(width, height, pixels).unwrap()
}

fn varied(width: u32, height: u32) -> Image {
    let mut pixels = Vec::new();
    for y in 0..height {
        for x in 0..width {
            pixels.push(Pixel {
                r: (x * 40 + y) as u8,
                g: (y * 60 + x) as u8,
                b: (x * 7 + y * 11) as u8,
                a: 255,
            });
        }
    }
    Image::from_pixels(width, height, pixels).unwrap()
}

#[test]
fn identity_pipeline() {
    let src = varied(3, 2);
    let mut c = Corrupter::new(varied(3, 2)).unwrap();
    let mut rng = StdRng::seed_from_u64(42);
    c.run(&mut rng, &zero_config());
    for y in 0..2u32 {
        for x in 0..3u32 {
            assert_eq!(c.buffer.pixel(x, y), src.pixel(x, y));
        }
    }
}

#[test]
fn identity_each_stage() {
    let src = varied(4, 3);
    let cfg = zero_config();

    let mut c = Corrupter::new(varied(4, 3)).unwrap();
    let mut rng = StdRng::seed_from_u64(7);
    c.dissolve_block(&mut rng, &cfg);
    for y in 0..3u32 {
        for x in 0..4u32 {
            assert_eq!(c.buffer.pixel(x, y), src.pixel(x, y));
        }
    }

    let mut c = Corrupter::new(varied(4, 3)).unwrap();
    let mut rng = StdRng::seed_from_u64(7);
    c.random_brightening(&mut rng, &cfg);
    for y in 0..3u32 {
        for x in 0..4u32 {
            assert_eq!(c.buffer.pixel(x, y), src.pixel(x, y));
        }
    }

    let mut c = Corrupter::new(varied(4, 3)).unwrap();
    let mut rng = StdRng::seed_from_u64(7);
    c.chromatic_abberations(&mut rng, &cfg);
    for y in 0..3u32 {
        for x in 0..4u32 {
            assert_eq!(c.buffer.pixel(x, y), src.pixel(x, y));
        }
    }
}

#[test]
fn determinism_same_seed() {
    let cfg = Config {
        magnitude: 7,
        block_height: 5,
        block_offset: 30,
        stride_magnitude: 2,
        lr: 12,
        lg: 17,
        lb: 18,
        std_offset: 10,
        brightness_addition: 3,
        mean_abberation: 10,
        std_abberation: 1,
    };
    let mut first = Corrupter::new(varied(8, 6)).unwrap();
    let mut rng = StdRng::seed_from_u64(1234);
    first.run(&mut rng, &cfg);

    let mut second = Corrupter::new(varied(8, 6)).unwrap();
    let mut rng = StdRng::seed_from_u64(1234);
    second.run(&mut rng, &cfg);

    for y in 0..6u32 {
        for x in 0..8u32 {
            assert_eq!(first.buffer.pixel(x, y), second.buffer.pixel(x, y));
        }
    }
}

#[test]
fn dimension_preservation() {
    for (w, h) in [(1u32, 1u32), (4, 4), (3, 5)] {
        let mut c = Corrupter::new(varied(w, h)).unwrap();
        let mut rng = StdRng::seed_from_u64(99);
        let cfg = Config { block_height: 1, ..Config::default() };
        c.run(&mut rng, &cfg);
        assert_eq!(c.buffer.width, w);
        assert_eq!(c.buffer.height, h);
    }
}

#[test]
fn scenario_solid_red_brightened() {
    let red = Pixel { r: 255, g: 0, b: 0, a: 255 };
    let mut c = Corrupter::new(solid(4, 4, red)).unwrap();
    let mut rng = StdRng::seed_from_u64(5);
    let cfg = Config { brightness_addition: 10, ..zero_config() };
    c.run(&mut rng, &cfg);
    let expected = Pixel { r: 9, g: 10, b: 10, a: 9 };
    for y in 0..4u32 {
        for x in 0..4u32 {
            assert_eq!(c.buffer.pixel(x, y), expected);
        }
    }
}

#[test]
fn zero_height_fails_fast() {
    let img = Image::from_pixels(4, 0, Vec::new()).unwrap();
    assert_eq!(Corrupter::new(img).unwrap_err(), CorruptError::DegenerateBounds);
}

#[test]
fn zero_width_fails_fast() {
    let img = Image::from_pixels(0, 3, Vec::new()).unwrap();
    assert_eq!(Corrupter::new(img).unwrap_err(), CorruptError::DegenerateBounds);
}

#[test]
fn from_pixels_length_mismatch() {
    let pixels = vec![Pixel { r: 0, g: 0, b: 0, a: 0 }; 3];
    assert!(Image::from_pixels(2, 2, pixels).is_none());
}

#[test]
fn new_buffer_is_zeroed() {
    let c = Corrupter::new(varied(2, 2)).unwrap();
    for y in 0..2u32 {
        for x in 0..2u32 {
            assert_eq!(c.buffer.pixel(x, y), Pixel { r: 0, g: 0, b: 0, a: 0 });
        }
    }
}

#[test]
fn offset_zero_magnitude_is_zero() {
    let mut rng = StdRng::seed_from_u64(31);
    assert_eq!(offset_u32(&mut rng, 0), 0);
    assert_eq!(offset_i64(&mut rng, 0), 0);
}

#[test]
fn offset_scales_the_draw() {
    let mut a = StdRng::seed_from_u64(77);
    let mut b = StdRng::seed_from_u64(77);
    let raw = offset_u32(&mut a, 1);
    let scaled = offset_u32(&mut b, 3);
    assert_eq!(scaled, raw.wrapping_mul(3));
}

#[test]
fn default_config_values() {
    let cfg = Config::default();
    assert_eq!(cfg.magnitude, 7);
    assert_eq!(cfg.block_height, 15);
    assert_eq!(cfg.block_offset, 30);
    assert_eq!(cfg.stride_magnitude, 0);
    assert_eq!(cfg.lr, 12);
    assert_eq!(cfg.lg, 17);
    assert_eq!(cfg.lb, 18);
    assert_eq!(cfg.std_offset, 10);
    assert_eq!(cfg.brightness_addition, 3);
    assert_eq!(cfg.mean_abberation, 10);
    assert_eq!(cfg.std_abberation, 1);
}
