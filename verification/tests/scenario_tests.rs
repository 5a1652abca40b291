//! Concrete scenarios: fixed configurations with their exact expected
//! counts, sample sets and point orders, plus the axis duplicate-removal
//! rules and the degenerate edge cases.

use spherical_grid::axis::{axis_sample_count, axis_samples, AxisKind, AxisSample, RangeClass};
use spherical_grid::grid::{calculate_coordinates, coordinates_count, fill_coordinates, GridPoint};

#[test]
fn one_dimensional_radial_grid() {
    // Radius range 1000 with 10 radial steps and both angular axes
    // inactive: the origin plus 10 points on the forward axis.
    let count = coordinates_count(10, RangeClass::Zero, 0, RangeClass::Zero, 0);
    assert_eq!(count, 11);

    let points = calculate_coordinates(10, RangeClass::Zero, 0, RangeClass::Zero, 0);
    assert_eq!(points.len(), 11);
    assert_eq!(points[0], GridPoint::Origin);
    for step in 1..=10u32 {
        assert_eq!(
            points[step as usize],
            GridPoint::Sample {
                radius_step: step,
                latitude: AxisSample::Center,
                longitude: AxisSample::Center,
            }
        );
    }

    // The radial offsets follow from the steps: range / resolution * step,
    // here 0, 100, ..., 1000 along the forward axis.
    let radius_range = 1000.0f64;
    let step_size = radius_range / 10.0;
    for step in 1..=10u32 {
        assert_eq!(step_size * step as f64, 100.0 * step as f64);
    }
}

#[test]
fn two_dimensional_half_turn_grid() {
    // A half-turn longitude (180 degrees) with resolution 30 is partial,
    // so no duplicate removal applies: 31 longitude samples.
    assert_eq!(axis_sample_count(AxisKind::Longitude, 30, RangeClass::Partial), 31);

    let count = coordinates_count(10, RangeClass::Partial, 30, RangeClass::Zero, 0);
    assert_eq!(count, 1 + 10 * 31);

    let points = calculate_coordinates(10, RangeClass::Partial, 30, RangeClass::Zero, 0);
    assert_eq!(points.len(), count as usize);

    // The first radial ring holds the 31 longitude samples in ascending
    // subdivision order.
    for j in 0..31u32 {
        assert_eq!(
            points[1 + j as usize],
            GridPoint::Sample {
                radius_step: 1,
                latitude: AxisSample::Center,
                longitude: AxisSample::Step(j),
            }
        );
    }
}

#[test]
fn three_dimensional_full_sphere_grid() {
    // Full-circle longitude (360 degrees) with resolution 4 and full-span
    // latitude (180 degrees) with resolution 2: both duplicate-removal
    // rules fire at once.
    assert_eq!(axis_sample_count(AxisKind::Longitude, 4, RangeClass::Full), 4);
    assert_eq!(axis_sample_count(AxisKind::Latitude, 2, RangeClass::Full), 1);

    let count = coordinates_count(5, RangeClass::Full, 4, RangeClass::Full, 2);
    assert_eq!(count, 1 + 5 * 4 * 1);

    let points = calculate_coordinates(5, RangeClass::Full, 4, RangeClass::Full, 2);
    assert_eq!(points.len(), count as usize);

    // Radius outermost, then latitude, longitude innermost.
    let mut expected = vec![GridPoint::Origin];
    for radius_step in 1..=5u32 {
        for longitude in 0..4u32 {
            expected.push(GridPoint::Sample {
                radius_step,
                latitude: AxisSample::Step(1),
                longitude: AxisSample::Step(longitude),
            });
        }
    }
    assert_eq!(points, expected);
}

#[test]
fn radial_resolution_zero_collapses_to_origin() {
    let classes = [RangeClass::Zero, RangeClass::Partial, RangeClass::Full];
    for longitude_class in classes {
        for latitude_class in classes {
            let count = coordinates_count(0, longitude_class, 9, latitude_class, 7);
            assert_eq!(count, 1);
            let points = calculate_coordinates(0, longitude_class, 9, latitude_class, 7);
            assert_eq!(points, vec![GridPoint::Origin]);
        }
    }
}

#[test]
fn every_grid_starts_at_the_origin() {
    let classes = [RangeClass::Zero, RangeClass::Partial, RangeClass::Full];
    for radius_resolution in [0u32, 1, 2, 9] {
        for longitude_class in classes {
            for latitude_class in classes {
                let points = calculate_coordinates(
                    radius_resolution,
                    longitude_class,
                    3,
                    latitude_class,
                    4,
                );
                assert!(!points.is_empty());
                assert_eq!(points[0], GridPoint::Origin);
            }
        }
    }
}

#[test]
fn full_circle_longitude_drops_duplicate_meridian() {
    // Resolution R over a full turn yields R samples, not R + 1.
    let samples = axis_samples(AxisKind::Longitude, 8, RangeClass::Full);
    assert_eq!(samples.len(), 8);
    for (i, sample) in samples.iter().enumerate() {
        assert_eq!(*sample, AxisSample::Step(i as u32));
    }
    for i in 0..samples.len() {
        for j in i + 1..samples.len() {
            assert_ne!(samples[i], samples[j]);
        }
    }
    // A partial range of the same resolution keeps all R + 1 boundaries.
    assert_eq!(axis_samples(AxisKind::Longitude, 8, RangeClass::Partial).len(), 9);
}

#[test]
fn full_span_latitude_drops_poles() {
    // Resolution R over a half turn yields R - 1 samples: the poles go.
    let samples = axis_samples(AxisKind::Latitude, 8, RangeClass::Full);
    assert_eq!(samples.len(), 7);
    for (i, sample) in samples.iter().enumerate() {
        assert_eq!(*sample, AxisSample::Step(i as u32 + 1));
    }
    // Below resolution 2 the axis is floored to its single degenerate
    // sample.
    assert_eq!(
        axis_samples(AxisKind::Latitude, 1, RangeClass::Full),
        vec![AxisSample::Center]
    );
    assert_eq!(
        axis_samples(AxisKind::Latitude, 0, RangeClass::Full),
        vec![AxisSample::Center]
    );
    // Resolution 2 keeps exactly the equator.
    assert_eq!(
        axis_samples(AxisKind::Latitude, 2, RangeClass::Full),
        vec![AxisSample::Step(1)]
    );
}

#[test]
fn degenerate_axes_yield_single_center_sample() {
    for kind in [AxisKind::Longitude, AxisKind::Latitude] {
        for resolution in [0u32, 1] {
            for class in [RangeClass::Zero, RangeClass::Partial, RangeClass::Full] {
                assert_eq!(axis_samples(kind, resolution, class), vec![AxisSample::Center]);
                assert_eq!(axis_sample_count(kind, resolution, class), 1);
            }
        }
    }
    for kind in [AxisKind::Longitude, AxisKind::Latitude] {
        for resolution in [2u32, 5] {
            assert_eq!(
                axis_samples(kind, resolution, RangeClass::Zero),
                vec![AxisSample::Center]
            );
        }
    }
}

#[test]
fn sample_counts_match_materialized_samples() {
    for kind in [AxisKind::Longitude, AxisKind::Latitude] {
        for resolution in 0..12u32 {
            for class in [RangeClass::Zero, RangeClass::Partial, RangeClass::Full] {
                assert_eq!(
                    axis_sample_count(kind, resolution, class) as usize,
                    axis_samples(kind, resolution, class).len()
                );
            }
        }
    }
}

#[test]
fn axis_samples_are_ascending() {
    for kind in [AxisKind::Longitude, AxisKind::Latitude] {
        for resolution in 2..10u32 {
            for class in [RangeClass::Partial, RangeClass::Full] {
                let samples = axis_samples(kind, resolution, class);
                for pair in samples.windows(2) {
                    match (pair[0], pair[1]) {
                        (AxisSample::Step(a), AxisSample::Step(b)) => assert!(a < b),
                        _ => panic!("active axes yield step samples only"),
                    }
                }
            }
        }
    }
}

#[test]
fn fill_mode_matches_owned_mode() {
    let count = coordinates_count(4, RangeClass::Full, 5, RangeClass::Partial, 3);
    let owned = calculate_coordinates(4, RangeClass::Full, 5, RangeClass::Partial, 3);

    // A buffer one slot longer than needed: the spare slot stays as it was.
    let spare = GridPoint::Sample {
        radius_step: 99,
        latitude: AxisSample::Center,
        longitude: AxisSample::Center,
    };
    let mut buffer = vec![spare; count as usize + 1];
    fill_coordinates(4, RangeClass::Full, 5, RangeClass::Partial, 3, &mut buffer);

    assert_eq!(buffer.len(), count as usize + 1);
    assert_eq!(&buffer[..count as usize], owned.as_slice());
    assert_eq!(buffer[count as usize], spare);
}
