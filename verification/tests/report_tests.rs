use camera_calibration::collect::{Collector, PixelPoint};
use camera_calibration::pattern::PatternSpec;
use camera_calibration::report::{evaluate, view_rms_error, ErrorReport};

#[test]
fn rms_of_a_single_offset_point_is_the_distance() {
    // One point observed at the origin, predicted 3 micro-pixels right and
    // 4 up: squared distance 25, mean 25, root 5.
    let observed = vec![PixelPoint { x: 0, y: 0 }];
    let projected = vec![PixelPoint { x: 3, y: 4 }];
    assert_eq!(view_rms_error(&observed, &projected), 5);
}

#[test]
fn rms_rounds_the_root_of_the_mean_down() {
    // Squared distances 25 and 0: mean 12 (rounded down), root 3.
    let observed = vec![PixelPoint { x: 0, y: 0 }, PixelPoint { x: 10, y: 0 }];
    let projected = vec![PixelPoint { x: 3, y: 4 }, PixelPoint { x: 10, y: 0 }];
    assert_eq!(view_rms_error(&observed, &projected), 3);
}

#[test]
fn rms_of_exact_predictions_is_zero() {
    let observed = vec![
        PixelPoint {
            x: 1_440_000_000,
            y: 1_080_000_000,
        },
        PixelPoint { x: -5, y: 7 },
    ];
    assert_eq!(view_rms_error(&observed, &observed.clone()), 0);
}

#[test]
fn failed_projection_contributes_sentinel_zero() {
    let r = ErrorReport::from_view_outcomes(vec![Some(2), None, Some(4)]);
    assert_eq!(r.per_image_error, vec![2, 0, 4]);
    assert_eq!(r.mean_error, 2);
}

#[test]
fn mean_error_is_the_arithmetic_mean_of_per_image_errors() {
    let r = ErrorReport::from_view_outcomes(vec![Some(1), Some(2), Some(6)]);
    assert_eq!(r.per_image_error, vec![1, 2, 6]);
    assert_eq!(r.mean_error, 3);
    let sum: u64 = r.per_image_error.iter().sum();
    assert_eq!(r.mean_error, sum / r.per_image_error.len() as u64);
}

#[test]
fn mean_error_rounds_down() {
    let r = ErrorReport::from_view_outcomes(vec![Some(1), Some(2)]);
    assert_eq!(r.mean_error, 1);
}

#[test]
fn evaluate_reports_one_error_per_view() {
    let pattern = PatternSpec { rows: 1, cols: 2 };
    let mut collector = Collector::new(pattern);
    let observed = vec![PixelPoint { x: 0, y: 0 }, PixelPoint { x: 1_000_000, y: 0 }];
    for i in 0..3 {
        collector.record_detection(format!("img{}.jpeg", i), Some(observed.clone()));
    }

    // First view predicted exactly, second view off by (3, 4) on each
    // point, third view's projection failed.
    let off_by_five = vec![
        PixelPoint { x: 3, y: 4 },
        PixelPoint { x: 1_000_003, y: 4 },
    ];
    let projections = vec![Some(observed.clone()), Some(off_by_five), None];
    let r = evaluate(&collector.correspondences, &projections, pattern);
    assert_eq!(r.per_image_error, vec![0, 5, 0]);
    assert_eq!(r.mean_error, 1);
}
