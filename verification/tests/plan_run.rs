use ninlab_core_rs::plan::plan_pipeline;
use ninlab_core_rs::raster::ShapeError;
use ninlab_core_rs::scalar::Scalar;
use ninlab_core_rs::settings::ImageSettings;
use ninlab_core_rs::stage::Stage;

fn sc(x: f32) -> Scalar {
    Scalar::from_bits(x.to_bits())
}

#[test]
fn a_buffer_of_the_stated_shape_is_planned() {
    let s = ImageSettings::neutral();
    let plan = plan_pipeline(12, 2, 2, &s, None).unwrap();
    assert_eq!(plan.width, 2);
    assert_eq!(plan.height, 2);
    assert_eq!(plan.pixels, 4);
    assert!(!plan.denoise);
    assert_eq!(plan.stages, vec![Stage::Saturation]);
}

#[test]
fn a_buffer_of_any_other_length_is_refused() {
    let s = ImageSettings::neutral();
    for len in [0usize, 3, 11, 13, 24] {
        let refused = plan_pipeline(len, 2, 2, &s, None).unwrap_err();
        assert_eq!(refused, ShapeError { width: 2, height: 2, len });
    }
}

#[test]
fn dimensions_too_large_to_count_are_refused() {
    let s = ImageSettings::neutral();
    let refused = plan_pipeline(12, usize::MAX, 3, &s, None).unwrap_err();
    assert_eq!(refused, ShapeError { width: usize::MAX, height: 3, len: 12 });
}

#[test]
fn an_empty_image_is_planned() {
    let s = ImageSettings::neutral();
    let plan = plan_pipeline(0, 0, 9, &s, None).unwrap();
    assert_eq!(plan.pixels, 0);
    assert_eq!(plan.width, 0);
    assert_eq!(plan.height, 9);
}

#[test]
fn a_malformed_table_is_treated_as_absent() {
    let s = ImageSettings::neutral();
    let good: Vec<u8> = (0..=255u8).collect();
    let short: Vec<u8> = vec![0; 100];
    let with_curve = plan_pipeline(3, 1, 1, &s, Some(&good)).unwrap();
    assert_eq!(with_curve.stages, vec![Stage::Saturation, Stage::Curve]);
    let without = plan_pipeline(3, 1, 1, &s, Some(&short)).unwrap();
    assert_eq!(without.stages, vec![Stage::Saturation]);
    let none = plan_pipeline(3, 1, 1, &s, None).unwrap();
    assert_eq!(none.stages, vec![Stage::Saturation]);
}

#[test]
fn denoise_is_planned_for_positive_strength_only() {
    let mut s = ImageSettings::neutral();
    assert!(!plan_pipeline(3, 1, 1, &s, None).unwrap().denoise);
    s.denoise = sc(0.0);
    assert!(!plan_pipeline(3, 1, 1, &s, None).unwrap().denoise);
    s.denoise = sc(1e-6);
    assert!(!plan_pipeline(3, 1, 1, &s, None).unwrap().denoise);
    s.denoise = sc(-0.5);
    assert!(!plan_pipeline(3, 1, 1, &s, None).unwrap().denoise);
    s.denoise = sc(0.5);
    assert!(plan_pipeline(3, 1, 1, &s, None).unwrap().denoise);
}
