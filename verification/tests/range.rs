use lorenz::range::map_range;

#[test]
fn map_range_scales_the_unit_interval() {
    assert_eq!(map_range((0.0f64, 1.0), (0.0, 10.0), 0.5), 5.0);
    assert_eq!(map_range((0.0f32, 1.0), (0.0, 10.0), 0.5), 5.0);
}

#[test]
fn map_range_maps_the_middle_of_a_symmetric_range() {
    assert_eq!(map_range((-1.0f64, 1.0), (0.0, 1.0), 0.0), 0.5);
    assert_eq!(map_range((-1.0f32, 1.0), (0.0, 1.0), 0.0), 0.5);
}

#[test]
fn map_range_maps_the_ends_of_the_source_onto_the_ends_of_the_target() {
    assert_eq!(map_range((-13.0f32, 13.0), (25.0, 35.0), -13.0), 25.0);
    assert_eq!(map_range((-13.0f32, 13.0), (25.0, 35.0), 13.0), 35.0);
    assert_eq!(map_range((-13.0f32, 13.0), (25.0, 35.0), 0.0), 30.0);
}

#[test]
fn map_range_extrapolates_outside_the_source_range() {
    assert_eq!(map_range((0.0f64, 1.0), (0.0, 10.0), 2.0), 20.0);
    assert_eq!(map_range((0.0f64, 1.0), (0.0, 10.0), -1.0), -10.0);
}

#[test]
fn map_range_accepts_a_reversed_target_range() {
    assert_eq!(map_range((0.0f64, 4.0), (8.0, 0.0), 1.0), 6.0);
}

#[test]
fn map_range_onto_the_same_range_returns_the_value() {
    let ranges = [(0.0f64, 1.0), (-1.0, 1.0), (-13.0, 13.0), (0.3, 0.7), (28.0, -28.0)];
    let values = [-100.0f64, -1.0, -0.25, 0.0, 0.1, 0.5, 1.0, 3.75, 1000.0];
    for range in ranges {
        for v in values {
            let mapped = map_range(range, range, v);
            assert!(
                (mapped - v).abs() <= 1e-9 * (1.0 + v.abs()),
                "{:?} {} {}",
                range,
                v,
                mapped
            );
        }
    }
}

#[test]
fn map_range_onto_the_same_range_is_exact_on_integers() {
    for a in -5i64..=5 {
        for b in -5i64..=5 {
            if a != b {
                for v in -20i64..=20 {
                    assert_eq!(map_range((a, b), (a, b), v), v);
                }
            }
        }
    }
    assert_eq!(map_range((-4i64, 9), (-4, 9), 1000), 1000);
}

#[test]
fn map_range_on_integers_divides_towards_zero() {
    assert_eq!(map_range((0i64, 1), (0, 10), 1), 10);
    assert_eq!(map_range((-1i64, 1), (0, 100), 0), 50);
    assert_eq!(map_range((0i64, 4), (0, 2), 3), 1);
    assert_eq!(map_range((0i64, 4), (0, 2), -3), -1);
    assert_eq!(map_range((0i32, 3), (10, 20), 2), 16);
}

#[test]
fn map_range_from_an_empty_range_is_not_finite() {
    let at_the_point = map_range((5.0f64, 5.0), (0.0, 1.0), 5.0);
    assert!(!at_the_point.is_finite());
    assert!(at_the_point.is_nan());
    let beside_the_point = map_range((5.0f64, 5.0), (0.0, 1.0), 6.0);
    assert!(!beside_the_point.is_finite());
    assert!(beside_the_point.is_infinite());
    let single = map_range((5.0f32, 5.0), (0.0, 1.0), 5.0);
    assert!(!single.is_finite());
}

#[test]
fn map_range_multiplies_before_it_divides() {
    // (7 - 0) * (10 - 0) / (4 - 0) is 70 / 4, not 7 * (10 / 4).
    assert_eq!(map_range((0i64, 4), (0, 10), 7), 17);
}
