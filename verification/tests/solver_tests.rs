use camera_calibration::collect::{Collector, PixelPoint};
use camera_calibration::pattern::PatternSpec;
use camera_calibration::solver::{
    check_calibration_input, CalibrationError, CameraModel, Intrinsics, Pose, Vec3,
    MIN_CORRESPONDENCES,
};

fn batch_of(n: usize) -> Vec<camera_calibration::collect::Correspondence> {
    let pattern = PatternSpec { rows: 2, cols: 3 };
    let mut collector = Collector::new(pattern);
    for i in 0..n {
        let points: Vec<PixelPoint> = (0..6)
            .map(|k| PixelPoint {
                x: (k as i64) * 1_000_000,
                y: (i as i64) * 1_000_000,
            })
            .collect();
        collector.record_detection(format!("img{:02}.jpeg", i), Some(points));
    }
    collector.correspondences
}

fn intrinsics() -> Intrinsics {
    Intrinsics {
        fx: 800_000_000,
        fy: 820_000_000,
        cx: 720_000_000,
        cy: 540_000_000,
    }
}

fn poses(n: usize) -> Vec<Pose> {
    (0..n)
        .map(|i| Pose {
            rotation: Vec3 {
                x: i as i64,
                y: 0,
                z: 0,
            },
            translation: Vec3 {
                x: 0,
                y: 0,
                z: 5_000_000,
            },
        })
        .collect()
}

#[test]
fn fewer_than_minimum_views_is_insufficient_data() {
    let batch = batch_of(9);
    let r = check_calibration_input(&batch);
    assert_eq!(r, Err(CalibrationError::InsufficientData));
}

#[test]
fn empty_batch_is_insufficient_data() {
    let batch = batch_of(0);
    let r = check_calibration_input(&batch);
    assert_eq!(r, Err(CalibrationError::InsufficientData));
}

#[test]
fn minimum_views_are_accepted() {
    let batch = batch_of(MIN_CORRESPONDENCES);
    let r = check_calibration_input(&batch);
    assert_eq!(r, Ok(MIN_CORRESPONDENCES));
}

#[test]
fn assemble_accepts_one_pose_per_view() {
    let model = CameraModel::assemble(intrinsics(), vec![1, 2, 3, 4, 5], poses(12), 12)
        .expect("solver output of the right shape must be accepted");
    assert_eq!(model.view_count(), 12);
    assert_eq!(model.intrinsics, intrinsics());
    assert_eq!(model.distortion, vec![1, 2, 3, 4, 5]);
}

#[test]
fn assemble_rejects_missing_pose() {
    let r = CameraModel::assemble(intrinsics(), vec![1, 2, 3, 4, 5], poses(11), 12);
    assert!(r.is_none());
}

#[test]
fn assemble_rejects_wrong_distortion_length() {
    let r = CameraModel::assemble(intrinsics(), vec![1, 2, 3, 4], poses(12), 12);
    assert!(r.is_none());
}
