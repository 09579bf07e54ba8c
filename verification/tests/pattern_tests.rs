use camera_calibration::pattern::{ObjectPoint, PatternSpec};

#[test]
fn object_points_count_is_rows_times_cols() {
    let spec = PatternSpec { rows: 6, cols: 9 };
    let points = spec.object_points();
    assert_eq!(points.len(), 54);
    assert_eq!(spec.point_count(), 54);
}

#[test]
fn object_points_are_row_major_grid_coordinates() {
    let spec = PatternSpec { rows: 2, cols: 3 };
    let points = spec.object_points();
    let expected = vec![
        ObjectPoint { x: 0, y: 0, z: 0 },
        ObjectPoint { x: 1, y: 0, z: 0 },
        ObjectPoint { x: 2, y: 0, z: 0 },
        ObjectPoint { x: 0, y: 1, z: 0 },
        ObjectPoint { x: 1, y: 1, z: 0 },
        ObjectPoint { x: 2, y: 1, z: 0 },
    ];
    assert_eq!(points, expected);
}

#[test]
fn object_points_are_regenerated_identically() {
    let spec = PatternSpec { rows: 6, cols: 9 };
    let first = spec.object_points();
    let second = spec.object_points();
    assert_eq!(first, second);
}

#[test]
fn object_points_lie_in_the_target_plane() {
    let spec = PatternSpec { rows: 4, cols: 5 };
    for p in spec.object_points() {
        assert_eq!(p.z, 0);
    }
}
