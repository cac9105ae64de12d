use rustifier::mapper::{modified_pixel, saturate_to_u32};

#[test]
fn bounds_property_samples() {
    let coords = [0u32, 1, 7, 100, 65535, u32::MAX - 1, u32::MAX];
    let offsets = [0u32, 1, 9, 254, 4096, u32::MAX];
    let bounds = [1u32, 2, 3, 7, 640, u32::MAX];
    for &c in coords.iter() {
        for &o in offsets.iter() {
            for &b in bounds.iter() {
                assert!(modified_pixel(c, o, b) < b);
            }
        }
    }
}

#[test]
fn mapper_exact_values() {
    assert_eq!(modified_pixel(3, 4, 5), 2);
    assert_eq!(modified_pixel(10, 0, 16), 10);
    assert_eq!(modified_pixel(0, 7, 9), 7);
    assert_eq!(modified_pixel(u32::MAX, 1, 10), 0);
    assert_eq!(modified_pixel(u32::MAX, 0, 7), 3);
}

#[test]
fn saturate_values() {
    assert_eq!(saturate_to_u32(7), 7);
    assert_eq!(saturate_to_u32(0), 0);
    assert_eq!(saturate_to_u32(u32::MAX as i64), u32::MAX);
    assert_eq!(saturate_to_u32(u32::MAX as i64 + 1), u32::MAX);
    assert_eq!(saturate_to_u32(-5), u32::MAX);
    assert_eq!(saturate_to_u32(i64::MIN), u32::MAX);
    assert_eq!(saturate_to_u32(i64::MAX), u32::MAX);
}
