use camera_calibration::collect::{Collector, PixelPoint};
use camera_calibration::pattern::PatternSpec;

fn detected_points(n: usize) -> Vec<PixelPoint> {
    (0..n)
        .map(|k| PixelPoint {
            x: (k as i64) * 1_000_000,
            y: (k as i64) * 500_000,
        })
        .collect()
}

#[test]
fn found_pattern_appends_a_correspondence() {
    let pattern = PatternSpec { rows: 2, cols: 3 };
    let mut collector = Collector::new(pattern);
    let points = detected_points(6);
    collector.record_detection(String::from("calib01.jpeg"), Some(points.clone()));

    assert_eq!(collector.correspondences.len(), 1);
    assert_eq!(collector.failed.len(), 0);
    let c = &collector.correspondences[0];
    assert_eq!(c.source_id, "calib01.jpeg");
    assert_eq!(c.image_points, points);
    assert_eq!(c.object_points, pattern.object_points());
}

#[test]
fn missed_pattern_is_recorded_and_skipped() {
    let pattern = PatternSpec { rows: 2, cols: 3 };
    let mut collector = Collector::new(pattern);
    collector.record_detection(String::from("blank.jpeg"), None);

    assert_eq!(collector.correspondences.len(), 0);
    assert_eq!(collector.failed, vec![String::from("blank.jpeg")]);
    assert!(collector.has_failures());
}

#[test]
fn no_failures_means_no_report_owed() {
    let pattern = PatternSpec { rows: 2, cols: 3 };
    let mut collector = Collector::new(pattern);
    collector.record_detection(String::from("calib01.jpeg"), Some(detected_points(6)));
    assert!(!collector.has_failures());
}

#[test]
fn batch_with_one_bad_image_still_collects_the_rest() {
    let pattern = PatternSpec { rows: 6, cols: 9 };
    let mut collector = Collector::new(pattern);
    for i in 0..12 {
        let id = format!("calib{:02}.jpeg", i);
        if i == 7 {
            collector.record_detection(id, None);
        } else {
            collector.record_detection(id, Some(detected_points(54)));
        }
    }
    assert_eq!(collector.correspondences.len(), 11);
    assert_eq!(collector.failed, vec![String::from("calib07.jpeg")]);
    // Every correspondence carries an identical fresh copy of the canonical set.
    let canonical = pattern.object_points();
    for c in &collector.correspondences {
        assert_eq!(c.object_points, canonical);
    }
    // Output order follows input order.
    assert_eq!(collector.correspondences[7].source_id, "calib08.jpeg");
}
