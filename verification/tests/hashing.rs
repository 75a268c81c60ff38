//! Tests of the content hash: determinism, sensitivity, and the
//! canonical treatment of doubles.

use mmlens::{
    canon_bits, param_key, CameraParameters, BindLensModelType, ModelList, RangeList,
    ShimDistortionLayers, STATIC_FRAME_NUMBER,
};
use std::collections::HashMap;

fn bits(values: &[f64]) -> Vec<u64> {
    values.iter().map(|v| v.to_bits()).collect()
}

fn camera(focal_length_cm: f64) -> CameraParameters {
    CameraParameters {
        focal_length_cm: focal_length_cm.to_bits(),
        film_back_width_cm: (3.6f64).to_bits(),
        film_back_height_cm: (2.4f64).to_bits(),
        pixel_aspect: (1.0f64).to_bits(),
        lens_center_offset_x_cm: (0.0f64).to_bits(),
        lens_center_offset_y_cm: (0.0f64).to_bits(),
    }
}

fn build(camera_parameters: CameraParameters, distortion: f64) -> ShimDistortionLayers {
    let mut models = ModelList::new();
    models.push(BindLensModelType::TdeClassic);
    let mut ranges = RangeList::new();
    ranges.push((1, 3));
    let mut map: HashMap<u64, Vec<u64>> = HashMap::new();
    map.insert(param_key(0, 1), bits(&[distortion, 1.0, 0.0, 0.0, 0.0]));
    map.insert(param_key(0, 2), bits(&[distortion, 1.1, 0.0, 0.0, 0.0]));
    map.insert(param_key(0, 3), bits(&[distortion, 1.2, 0.0, 0.0, 0.0]));
    ShimDistortionLayers::from_parts(1, &models, &ranges, camera_parameters, &map)
}

#[test]
fn identical_inputs_hash_identically() {
    let a = build(camera(3.5), 0.1);
    let b = build(camera(3.5), 0.1);
    for frame in [i32::MIN, -1, 0, 1, 2, 3, 4, 1000, i32::MAX] {
        assert_eq!(a.frame_hash(frame), b.frame_hash(frame));
    }
}

#[test]
fn changed_camera_scalar_changes_every_frame_hash() {
    let a = build(camera(3.5), 0.1);
    let b = build(camera(5.0), 0.1);
    for frame in [i32::MIN, -1, 0, 1, 2, 3, 4, 1000, i32::MAX] {
        assert_ne!(a.frame_hash(frame), b.frame_hash(frame));
    }
}

#[test]
fn changed_layer_value_changes_frame_hash() {
    let a = build(camera(3.5), 0.1);
    let b = build(camera(3.5), 0.25);
    for frame in [0, 1, 2, 3, 4] {
        assert_ne!(a.frame_hash(frame), b.frame_hash(frame));
    }
}

#[test]
fn effective_values_drive_the_hash_outside_the_range() {
    // Frames clamped to the same stored set hash identically.
    let a = build(camera(3.5), 0.1);
    assert_eq!(a.frame_hash(-100), a.frame_hash(1));
    assert_eq!(a.frame_hash(100), a.frame_hash(3));
    // Frames with different effective values hash differently.
    assert_ne!(a.frame_hash(1), a.frame_hash(2));
}

#[test]
fn zero_sign_is_normalized() {
    let mut with_positive_zero = camera(3.5);
    with_positive_zero.lens_center_offset_x_cm = (0.0f64).to_bits();
    let mut with_negative_zero = camera(3.5);
    with_negative_zero.lens_center_offset_x_cm = (-0.0f64).to_bits();
    assert_ne!(
        with_positive_zero.lens_center_offset_x_cm,
        with_negative_zero.lens_center_offset_x_cm
    );
    let a = build(with_positive_zero, 0.1);
    let b = build(with_negative_zero, 0.1);
    assert_eq!(a.frame_hash(2), b.frame_hash(2));
}

#[test]
fn nan_is_normalized_and_total() {
    let quiet_nan = f64::NAN.to_bits();
    let other_nan = quiet_nan | 1;
    assert_ne!(quiet_nan, other_nan);
    let mut a_camera = camera(3.5);
    a_camera.pixel_aspect = quiet_nan;
    let mut b_camera = camera(3.5);
    b_camera.pixel_aspect = other_nan;
    let a = build(a_camera, 0.1);
    let b = build(b_camera, 0.1);
    assert_eq!(a.frame_hash(1), b.frame_hash(1));
}

#[test]
fn canon_bits_rules() {
    assert_eq!(canon_bits((-0.0f64).to_bits()), (0.0f64).to_bits());
    assert_eq!(canon_bits((0.0f64).to_bits()), 0);
    assert_eq!(canon_bits((1.5f64).to_bits()), (1.5f64).to_bits());
    assert_eq!(canon_bits((-1.5f64).to_bits()), (-1.5f64).to_bits());
    assert_eq!(canon_bits(f64::NAN.to_bits()), 0x7FF8_0000_0000_0000);
    assert_eq!(canon_bits(f64::NAN.to_bits() | 1), 0x7FF8_0000_0000_0000);
    assert_eq!(
        canon_bits(f64::INFINITY.to_bits()),
        f64::INFINITY.to_bits()
    );
    assert_eq!(
        canon_bits(f64::NEG_INFINITY.to_bits()),
        f64::NEG_INFINITY.to_bits()
    );
}

#[test]
fn empty_structure_hash_is_stable() {
    let a = ShimDistortionLayers::new();
    let b = ShimDistortionLayers::new();
    assert_eq!(a.frame_hash(0), b.frame_hash(0));
    assert_eq!(a.frame_hash(0), a.frame_hash(42));
}
