//! Assembly of the persisted calibration record: the intrinsic matrix as
//! nested rows, the distortion coefficients, one rotation and translation
//! vector per view, and the aggregate error.
//!
//! Writing the record out (as JSON, to a file) is the business of the
//! surrounding application; what is fixed here is the record's exact shape.

use crate::report::ErrorReport;
use crate::solver::CameraModel;
use vstd::prelude::*;

verus! {

/// One unit of the fixed-point micro representation: the intrinsic
/// matrix's constant corner entry, scaled like every other parameter.
pub const FIXED_POINT_ONE: i64 = 1_000_000;

/// The exported calibration record, all values in fixed-point micro-units.
pub struct CameraCalibration {
    /// The 3x3 intrinsic matrix as rows: `[[fx, 0, cx], [0, fy, cy], [0, 0, 1]]`.
    pub camera_matrix: Vec<Vec<i64>>,
    /// The distortion coefficients, in the order `k1, k2, p1, p2, k3`.
    pub distortion_parameters: Vec<i64>,
    /// One rotation vector `[rx, ry, rz]` per view.
    pub rotation_vectors: Vec<Vec<i64>>,
    /// One translation vector `[tx, ty, tz]` per view.
    pub translation_vectors: Vec<Vec<i64>>,
    /// The aggregate reprojection error, in micro-pixels.
    pub total_error: u64,
}

impl CameraCalibration {
    /// Builds the record for a solved model and its error report. The
    /// intrinsic matrix takes its documented pinhole shape, the distortion
    /// coefficients are carried over unchanged, and each view contributes
    /// exactly one rotation and one translation vector of three components.
    pub fn from_results(model: &CameraModel, report: &ErrorReport) -> (r: CameraCalibration)
        ensures
            r.camera_matrix@.len() == 3,
            r.camera_matrix@[0]@ == seq![model.intrinsics.fx, 0i64, model.intrinsics.cx],
            r.camera_matrix@[1]@ == seq![0i64, model.intrinsics.fy, model.intrinsics.cy],
            r.camera_matrix@[2]@ == seq![0i64, 0i64, FIXED_POINT_ONE],
            r.distortion_parameters@ == model.distortion@,
            r.rotation_vectors@.len() == model.poses@.len(),
            r.translation_vectors@.len() == model.poses@.len(),
            forall|i: int|
                0 <= i < model.poses@.len() ==> #[trigger] r.rotation_vectors@[i]@ == seq![
                    model.poses@[i].rotation.x,
                    model.poses@[i].rotation.y,
                    model.poses@[i].rotation.z,
                ],
            forall|i: int|
                0 <= i < model.poses@.len() ==> #[trigger] r.translation_vectors@[i]@ == seq![
                    model.poses@[i].translation.x,
                    model.poses@[i].translation.y,
                    model.poses@[i].translation.z,
                ],
            r.total_error == report.mean_error,
    {
        let row0: Vec<i64> = vec![model.intrinsics.fx, 0i64, model.intrinsics.cx];
        let row1: Vec<i64> = vec![0i64, model.intrinsics.fy, model.intrinsics.cy];
        let row2: Vec<i64> = vec![0i64, 0i64, FIXED_POINT_ONE];
        let camera_matrix: Vec<Vec<i64>> = vec![row0, row1, row2];

        let mut distortion_parameters: Vec<i64> = Vec::new();
        let mut k: usize = 0;
        while k < model.distortion.len()
            invariant
                k <= model.distortion@.len(),
                distortion_parameters@ == model.distortion@.take(k as int),
            decreases model.distortion@.len() - k,
        {
            proof {
                assert(model.distortion@.take(k + 1 as int) =~= model.distortion@.take(
                    k as int,
                ).push(model.distortion@[k as int]));
            }
            distortion_parameters.push(model.distortion[k]);
            k = k + 1;
        }
        proof {
            assert(model.distortion@.take(model.distortion@.len() as int) =~= model.distortion@);
        }

        let mut rotation_vectors: Vec<Vec<i64>> = Vec::new();
        let mut translation_vectors: Vec<Vec<i64>> = Vec::new();
        let mut v: usize = 0;
        while v < model.poses.len()
            invariant
                v <= model.poses@.len(),
                rotation_vectors@.len() == v,
                translation_vectors@.len() == v,
                forall|i: int|
                    0 <= i < v ==> #[trigger] rotation_vectors@[i]@ == seq![
                        model.poses@[i].rotation.x,
                        model.poses@[i].rotation.y,
                        model.poses@[i].rotation.z,
                    ],
                forall|i: int|
                    0 <= i < v ==> #[trigger] translation_vectors@[i]@ == seq![
                        model.poses@[i].translation.x,
                        model.poses@[i].translation.y,
                        model.poses@[i].translation.z,
                    ],
            decreases model.poses@.len() - v,
        {
            let pose = model.poses[v];
            rotation_vectors.push(vec![pose.rotation.x, pose.rotation.y, pose.rotation.z]);
            translation_vectors.push(
                vec![pose.translation.x, pose.translation.y, pose.translation.z],
            );
            v = v + 1;
        }

        CameraCalibration {
            camera_matrix,
            distortion_parameters,
            rotation_vectors,
            translation_vectors,
            total_error: report.mean_error,
        }
    }
}

} // verus!
