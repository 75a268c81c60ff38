//! End-to-end tests of building, sizing, lookup and frame-range queries.

use mmlens::{
    count_parameters, param_key, shim_create_distortion_layers_box, CameraParameters,
    BindLensModelType, ModelList, RangeList, ShimDistortionLayers, STATIC_FRAME_NUMBER,
};
use std::collections::HashMap;

fn bits(values: &[f64]) -> Vec<u64> {
    values.iter().map(|v| v.to_bits()).collect()
}

fn test_camera() -> CameraParameters {
    CameraParameters {
        focal_length_cm: (3.5f64).to_bits(),
        film_back_width_cm: (3.6f64).to_bits(),
        film_back_height_cm: (2.4f64).to_bits(),
        pixel_aspect: (1.0f64).to_bits(),
        lens_center_offset_x_cm: (0.0f64).to_bits(),
        lens_center_offset_y_cm: (0.0f64).to_bits(),
    }
}

#[test]
fn empty_structure_is_valid_and_empty() {
    let s = ShimDistortionLayers::new();
    assert_eq!(s.get_layer_count(), 0);
    assert!(s.is_static());
    assert_eq!(s.frame_count(), 1);
    assert_eq!(s.parameter_index_count(), 0);
    assert_eq!(s.parameter_block_length(), 0);
    assert!(s.layer_parameters_3de_classic(0, 1).is_none());
    assert_eq!(s.layer_lens_model_type(0), BindLensModelType::Uninitialized);
    let mut start: i32 = 7;
    let mut end: i32 = 7;
    s.frame_range(&mut start, &mut end);
    assert_eq!((start, end), (STATIC_FRAME_NUMBER, STATIC_FRAME_NUMBER));
}

#[test]
fn boxed_structure_is_empty() {
    let s = shim_create_distortion_layers_box();
    assert_eq!(s.get_layer_count(), 0);
    assert!(s.is_static());
}

#[test]
fn empty_build_ignores_camera_parameters() {
    let models = ModelList::new();
    let ranges = RangeList::new();
    let map: HashMap<u64, Vec<u64>> = HashMap::new();
    let s = ShimDistortionLayers::from_parts(0, &models, &ranges, test_camera(), &map);
    assert_eq!(s.camera_parameters(), CameraParameters::default());
}

#[test]
fn parameter_size_per_variant() {
    assert_eq!(BindLensModelType::Uninitialized.parameter_size(), 0);
    assert_eq!(BindLensModelType::TdeClassic.parameter_size(), 5);
    assert_eq!(BindLensModelType::TdeRadialStdDeg4.parameter_size(), 8);
    assert_eq!(BindLensModelType::TdeAnamorphicStdDeg4.parameter_size(), 13);
    assert_eq!(BindLensModelType::TdeAnamorphicStdDeg4Rescaled.parameter_size(), 14);
}

#[test]
fn single_layer_static_round_trip() {
    let mut models = ModelList::new();
    models.push(BindLensModelType::TdeClassic);
    let mut ranges = RangeList::new();
    ranges.push((STATIC_FRAME_NUMBER, STATIC_FRAME_NUMBER));
    let mut map: HashMap<u64, Vec<u64>> = HashMap::new();
    map.insert(
        param_key(0, STATIC_FRAME_NUMBER),
        bits(&[1.0, 0.5, 0.0, 0.0, 0.1]),
    );
    let s = ShimDistortionLayers::from_parts(1, &models, &ranges, test_camera(), &map);

    assert_eq!(s.get_layer_count(), 1);
    assert!(s.is_static());
    assert_eq!(s.frame_count(), 1);
    assert_eq!(s.layer_lens_model_type(0), BindLensModelType::TdeClassic);
    assert_eq!(s.camera_parameters(), test_camera());

    for frame in [i32::MIN, -100000, -1, 0, 1, 24, 100000, i32::MAX] {
        let p = s
            .layer_parameters_3de_classic(0, frame)
            .expect("static layer must answer at every frame");
        assert_eq!(p.distortion, (1.0f64).to_bits());
        assert_eq!(p.anamorphic_squeeze, (0.5f64).to_bits());
        assert_eq!(p.curvature_x, (0.0f64).to_bits());
        assert_eq!(p.curvature_y, (0.0f64).to_bits());
        assert_eq!(p.quartic_distortion, (0.1f64).to_bits());
    }
}

fn two_layer_structure() -> ShimDistortionLayers {
    // Layer 0: classic, animated over frames 1..=3.
    // Layer 1: degree-4 radial, static.
    let mut models = ModelList::new();
    models.push(BindLensModelType::TdeClassic);
    models.push(BindLensModelType::TdeRadialStdDeg4);
    let mut ranges = RangeList::new();
    ranges.push((1, 3));
    ranges.push((STATIC_FRAME_NUMBER, STATIC_FRAME_NUMBER));
    let mut map: HashMap<u64, Vec<u64>> = HashMap::new();
    map.insert(param_key(0, 1), bits(&[0.1, 1.0, 0.01, 0.001, 0.2]));
    map.insert(param_key(0, 2), bits(&[0.2, 1.1, 0.02, 0.002, 0.3]));
    map.insert(param_key(0, 3), bits(&[0.3, 1.2, 0.03, 0.003, 0.4]));
    map.insert(
        param_key(1, STATIC_FRAME_NUMBER),
        bits(&[0.5, 0.6, 0.7, 0.8, 0.9, 1.0, 1.1, 1.2]),
    );
    ShimDistortionLayers::from_parts(2, &models, &ranges, test_camera(), &map)
}

#[test]
fn multi_layer_sizing() {
    let s = two_layer_structure();
    // 3 frames * 5 scalars + 1 set * 8 scalars.
    assert_eq!(s.parameter_block_length(), 3 * 5 + 8);
    assert_eq!(s.parameter_block_length(), 23);
    // 3 entries + 1 entry.
    assert_eq!(s.parameter_index_count(), 4);

    let mut models = ModelList::new();
    models.push(BindLensModelType::TdeClassic);
    models.push(BindLensModelType::TdeRadialStdDeg4);
    let mut ranges = RangeList::new();
    ranges.push((1, 3));
    ranges.push((STATIC_FRAME_NUMBER, STATIC_FRAME_NUMBER));
    let (entries, values) = count_parameters(2, &ranges, &models);
    assert_eq!(entries, 4);
    assert_eq!(values, 23);
}

#[test]
fn multi_layer_lookup_reads_the_right_layer() {
    let s = two_layer_structure();
    assert!(!s.is_static());
    assert_eq!(s.frame_count(), 3);
    let mut start: i32 = 0;
    let mut end: i32 = 0;
    s.frame_range(&mut start, &mut end);
    assert_eq!((start, end), (1, 3));

    // Exact per-frame values of the animated classic layer: the offset
    // arithmetic must skip nothing and double-count nothing.
    let p1 = s.layer_parameters_3de_classic(0, 1).unwrap();
    assert_eq!(p1.distortion, (0.1f64).to_bits());
    assert_eq!(p1.quartic_distortion, (0.2f64).to_bits());
    let p2 = s.layer_parameters_3de_classic(0, 2).unwrap();
    assert_eq!(p2.distortion, (0.2f64).to_bits());
    assert_eq!(p2.anamorphic_squeeze, (1.1f64).to_bits());
    let p3 = s.layer_parameters_3de_classic(0, 3).unwrap();
    assert_eq!(p3.distortion, (0.3f64).to_bits());
    assert_eq!(p3.curvature_y, (0.003f64).to_bits());
}

#[test]
fn lookup_clamps_to_range_boundaries() {
    let s = two_layer_structure();
    // Below the start: the start frame's values.
    assert_eq!(
        s.layer_parameters_3de_classic(0, 0),
        s.layer_parameters_3de_classic(0, 1)
    );
    assert_eq!(
        s.layer_parameters_3de_classic(0, i32::MIN),
        s.layer_parameters_3de_classic(0, 1)
    );
    // Above the end: the end frame's values.
    assert_eq!(
        s.layer_parameters_3de_classic(0, 4),
        s.layer_parameters_3de_classic(0, 3)
    );
    assert_eq!(
        s.layer_parameters_3de_classic(0, i32::MAX),
        s.layer_parameters_3de_classic(0, 3)
    );
}

#[test]
fn lookup_absent_cases() {
    let s = two_layer_structure();
    // Out-of-range layer index.
    assert!(s.layer_parameters_3de_classic(2, 1).is_none());
    assert!(s.layer_parameters_3de_classic(255, 1).is_none());
    // Variant mismatch: layer 1 stores a radial model.
    assert!(s.layer_parameters_3de_classic(1, 1).is_none());
    // Off-range model queries report Uninitialized.
    assert_eq!(s.layer_lens_model_type(2), BindLensModelType::Uninitialized);
    assert_eq!(s.layer_lens_model_type(1), BindLensModelType::TdeRadialStdDeg4);
}

#[test]
fn single_frame_range_counts_as_static() {
    // An animated range of one frame stores one set and is static.
    let mut models = ModelList::new();
    models.push(BindLensModelType::TdeClassic);
    let mut ranges = RangeList::new();
    ranges.push((5, 5));
    let mut map: HashMap<u64, Vec<u64>> = HashMap::new();
    map.insert(param_key(0, 5), bits(&[0.4, 1.0, 0.0, 0.0, 0.0]));
    let s = ShimDistortionLayers::from_parts(1, &models, &ranges, test_camera(), &map);
    assert!(s.is_static());
    assert_eq!(s.frame_count(), 1);
    let p = s.layer_parameters_3de_classic(0, 99).unwrap();
    assert_eq!(p.distortion, (0.4f64).to_bits());
}

#[test]
fn union_range_over_animated_layers() {
    // Two animated classic layers: the structure's range is the union.
    let mut models = ModelList::new();
    models.push(BindLensModelType::TdeClassic);
    models.push(BindLensModelType::TdeClassic);
    let mut ranges = RangeList::new();
    ranges.push((10, 12));
    ranges.push((5, 7));
    let mut map: HashMap<u64, Vec<u64>> = HashMap::new();
    for frame in 10..=12 {
        map.insert(param_key(0, frame), bits(&[0.1, 1.0, 0.0, 0.0, 0.0]));
    }
    for frame in 5..=7 {
        map.insert(param_key(1, frame), bits(&[0.2, 1.0, 0.0, 0.0, 0.0]));
    }
    let s = ShimDistortionLayers::from_parts(2, &models, &ranges, test_camera(), &map);
    assert!(!s.is_static());
    let mut start: i32 = 0;
    let mut end: i32 = 0;
    s.frame_range(&mut start, &mut end);
    assert_eq!((start, end), (5, 12));
    assert_eq!(s.frame_count(), 8);
}

#[test]
fn as_string_dumps_state() {
    let s = two_layer_structure();
    let text = s.as_string();
    assert!(text.contains("ShimDistortionLayers"));
    assert!(text.contains("layer_count"));
}
