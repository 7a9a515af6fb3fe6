use tauri_runtime_cef::geometry::{
    cef_dimension, cef_size, no_size, physical_bounds, saturate_i32, saturate_u32, scale_factor,
    view_scale_factor, Binary64, CefSize, PhysicalPosition, PhysicalSize, Rect,
};
use winit::dpi::{LogicalSize, Size};

fn of(value: f64) -> Binary64 {
    Binary64 { bits: value.to_bits() }
}

fn quotient(value: u32, scale: f64) -> i64 {
    (value as f64 / scale).round() as i64
}

#[test]
fn cef_sizes_stay_in_device_independent_pixels() {
    let physical = cef_size(quotient(300, 1.5), quotient(180, 1.5));
    assert_eq!((physical.width, physical.height), (200, 120));

    let size = Size::Logical(LogicalSize::new(200.0, 120.0)).to_physical::<u32>(1.5);
    let logical = cef_size(quotient(size.width, 1.5), quotient(size.height, 1.5));
    assert_eq!((logical.width, logical.height), (200, 120));
}

#[test]
fn cef_dimensions_agree_with_float_clamping() {
    for value in [0u32, 1, 2, 3, 799, 800, u32::MAX] {
        for scale in [0.0, 1e-9, 0.5, 1.0, 1.25, 1.5, 2.0, 3.0, f64::INFINITY, f64::NAN] {
            let expected = (value as f64 / scale).round().max(1.0) as i32;
            assert_eq!(cef_dimension(quotient(value, scale)), expected);
        }
    }
}

#[test]
fn cef_dimension_is_at_least_one_pixel() {
    assert_eq!(cef_dimension(i64::MIN), 1);
    assert_eq!(cef_dimension(0), 1);
    assert_eq!(cef_dimension(1), 1);
    assert_eq!(cef_dimension(640), 640);
    assert_eq!(cef_dimension(i64::MAX), i32::MAX);
    assert_eq!(no_size(), CefSize { width: 0, height: 0 });
}

#[test]
fn cef_dimensions_keep_their_order() {
    for (smaller, larger) in [(-3, 0), (0, 1), (1, 2), (799, 800), (i64::MAX - 1, i64::MAX)] {
        assert!(1 <= cef_dimension(smaller));
        assert!(cef_dimension(smaller) <= cef_dimension(larger));
        let size = cef_size(smaller, larger);
        assert_eq!(size.width, cef_dimension(smaller));
        assert_eq!(size.height, cef_dimension(larger));
    }
}

#[test]
fn saturation_agrees_with_float_casts() {
    for value in [i64::MIN, -4294967296, -1, 0, 1, 2147483647, 2147483648, 4294967296, i64::MAX] {
        assert_eq!(saturate_i32(value), value as f64 as i32);
        assert_eq!(saturate_u32(value), value as f64 as u32);
    }
}

#[test]
fn numbers_differ_as_floats_do() {
    let values = [
        0.0,
        -0.0,
        1.0,
        -1.0,
        1.5,
        f64::MIN_POSITIVE,
        5e-324,
        f64::INFINITY,
        f64::NEG_INFINITY,
        f64::NAN,
        -f64::NAN,
    ];
    for a in values {
        assert_eq!(of(a).is_positive(), a > 0.0);
        for b in values {
            assert_eq!(of(a).differs(of(b)), a != b);
        }
    }
    assert_eq!(Binary64::one(), of(1.0));
}

#[test]
fn negative_extents_count_as_none() {
    let (position, size) = physical_bounds(Rect { x: -5, y: 7, width: -1, height: 30 });
    assert_eq!(position, PhysicalPosition { x: -5, y: 7 });
    assert_eq!(size, PhysicalSize { width: 0, height: 30 });
}

#[test]
fn scale_factors_fall_back() {
    assert_eq!(scale_factor(Some(of(2.0))), of(2.0));
    assert_eq!(scale_factor(None), of(1.0));
    assert_eq!(view_scale_factor(Some(Some(of(2.0))), of(1.5)), of(2.0));
    assert_eq!(view_scale_factor(Some(None), of(1.5)), of(1.0));
    assert_eq!(view_scale_factor(None, of(1.5)), of(1.5));
}
