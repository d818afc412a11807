use raytrace::clamp;

#[test]
fn clamp_below_range_gives_lower_bound() {
    assert_eq!(clamp(-4i32, 0, 10), 0);
}

#[test]
fn clamp_above_range_gives_upper_bound() {
    assert_eq!(clamp(42i32, 0, 10), 10);
}

#[test]
fn clamp_inside_range_keeps_value() {
    assert_eq!(clamp(7u32, 0, 10), 7);
    assert_eq!(clamp(0u32, 0, 10), 0);
    assert_eq!(clamp(10u32, 0, 10), 10);
}

#[test]
fn clamp_tone_mapping_channel() {
    assert_eq!(clamp(1.7f64, 0.0, 0.999), 0.999);
    assert_eq!(clamp(-0.25f64, 0.0, 0.999), 0.0);
    assert_eq!(clamp(0.5f64, 0.0, 0.999), 0.5);
    assert_eq!((clamp(1.7f64, 0.0, 0.999) * 256.0) as u32, 255);
}

#[test]
fn clamp_nan_is_handed_back() {
    assert!(clamp(f64::NAN, 0.0, 0.999).is_nan());
}

#[test]
fn clamp_tests_lower_bound_first() {
    // With crossed bounds a value below both takes the lower one.
    assert_eq!(clamp(-1i32, 5, 3), 5);
    assert_eq!(clamp(9i32, 5, 3), 3);
}

#[test]
fn select_root_prefers_nearer_root() {
    assert_eq!(raytrace::select_root(0.5f64, 1.5, 0.001, f64::INFINITY), Some(0.5));
}

#[test]
fn select_root_falls_back_to_farther_root() {
    // From inside a sphere the nearer root lies behind the origin.
    assert_eq!(raytrace::select_root(-0.5f64, 1.5, 0.001, f64::INFINITY), Some(1.5));
}

#[test]
fn select_root_interval_is_open() {
    assert_eq!(raytrace::select_root(0i64, 100, 0, 100), None);
    assert_eq!(raytrace::select_root(0.001f64, 5.0, 0.001, 5.0), None);
}

#[test]
fn select_root_none_beyond_bound() {
    assert_eq!(raytrace::select_root(7u32, 9, 1, 6), None);
    assert_eq!(raytrace::select_root(2u32, 9, 1, 6), Some(2));
}

#[test]
fn select_root_ignores_nan() {
    assert_eq!(raytrace::select_root(f64::NAN, f64::NAN, 0.0, 1.0), None);
}

#[test]
fn closest_hit_picks_nearer_sphere() {
    // A ray through two overlapping spheres meets the nearer one at 0.5.
    let hits = vec![Some(1.5f64), Some(0.5)];
    assert_eq!(raytrace::closest_hit(&hits), Some(1));
}

#[test]
fn closest_hit_ignores_insertion_order() {
    let forward = vec![Some(0.5f64), None, Some(1.5), Some(0.9)];
    let backward = vec![Some(0.9f64), Some(1.5), None, Some(0.5)];
    let a = raytrace::closest_hit(&forward).unwrap();
    let b = raytrace::closest_hit(&backward).unwrap();
    assert_eq!(forward[a], Some(0.5));
    assert_eq!(backward[b], Some(0.5));
}

#[test]
fn closest_hit_none_when_all_miss() {
    let none: Vec<Option<f64>> = vec![None, None, None];
    assert_eq!(raytrace::closest_hit(&none), None);
    let empty: Vec<Option<u32>> = Vec::new();
    assert_eq!(raytrace::closest_hit(&empty), None);
}

#[test]
fn closest_hit_keeps_first_of_equal_hits() {
    let hits = vec![None, Some(4i32), Some(9), Some(4)];
    assert_eq!(raytrace::closest_hit(&hits), Some(1));
}

#[test]
fn closest_hit_single_hit() {
    let hits = vec![None, None, Some(3.25f64)];
    assert_eq!(raytrace::closest_hit(&hits), Some(2));
}
