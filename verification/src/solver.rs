//! The calibration solver's data model and decisions: when a batch of
//! correspondences is sufficient to solve at all, and how a raw solution is
//! assembled into a well-formed camera model.
//!
//! The nonlinear least-squares search itself runs in the imaging backend
//! outside this crate; what is decided here is everything around it — the
//! input check and the shape of the result.

use crate::collect::Correspondence;
use vstd::prelude::*;

verus! {

/// Fewest views a single-camera calibration accepts: with fewer than ten
/// correspondences a five-coefficient distortion model is under-constrained.
pub const MIN_CORRESPONDENCES: usize = 10;

/// Number of distortion coefficients of the radial-tangential lens model,
/// in the fixed order `k1, k2, p1, p2, k3`.
pub const DISTORTION_COEFFICIENT_COUNT: usize = 5;

/// Why calibration could not produce a camera model.
#[derive(Clone, Copy, Debug, PartialEq, Eq, Structural)]
pub enum CalibrationError {
    /// Too few correspondences were supplied to constrain the model.
    InsufficientData,
}

/// A three-component vector in fixed-point micro-units.
#[derive(Clone, Copy, Debug, PartialEq, Eq, Structural)]
pub struct Vec3 {
    pub x: i64,
    pub y: i64,
    pub z: i64,
}

/// One view's extrinsics: the rotation (as a rotation vector) and the
/// translation taking pattern coordinates to camera coordinates.
#[derive(Clone, Copy, Debug, PartialEq, Eq, Structural)]
pub struct Pose {
    pub rotation: Vec3,
    pub translation: Vec3,
}

/// Camera-internal parameters, in micro-units: focal lengths and principal
/// point of the pinhole model.
#[derive(Clone, Copy, Debug, PartialEq, Eq, Structural)]
pub struct Intrinsics {
    pub fx: i64,
    pub fy: i64,
    pub cx: i64,
    pub cy: i64,
}

/// Pixel dimensions of the calibration frames.
#[derive(Clone, Copy, Debug, PartialEq, Eq, Structural)]
pub struct ImageSize {
    pub width: u32,
    pub height: u32,
}

/// The shared result of calibration: one intrinsic matrix and distortion
/// vector for the whole batch, plus one pose per consumed view — the
/// defining shape of single-camera multi-view calibration.
pub struct CameraModel {
    pub intrinsics: Intrinsics,
    pub distortion: Vec<i64>,
    pub poses: Vec<Pose>,
}

impl CameraModel {
    /// The distortion vector has exactly the five coefficients of the
    /// radial-tangential model.
    pub open spec fn wf(self) -> bool {
        self.distortion@.len() == DISTORTION_COEFFICIENT_COUNT
    }

    /// The model explains a batch of `n_views` correspondences: one pose
    /// per view, and a well-formed distortion vector.
    pub open spec fn explains(self, n_views: nat) -> bool {
        self.wf() && self.poses@.len() == n_views
    }

    /// Assembles a solver's raw output into a camera model, provided the
    /// output has the required shape: five distortion coefficients and
    /// exactly one pose per consumed view. Output of any other shape is
    /// rejected, never silently padded or truncated.
    pub fn assemble(
        intrinsics: Intrinsics,
        distortion: Vec<i64>,
        poses: Vec<Pose>,
        n_views: usize,
    ) -> (r: Option<CameraModel>)
        ensures
            match r {
                Some(model) => {
                    &&& model.explains(n_views as nat)
                    &&& model.intrinsics == intrinsics
                    &&& model.distortion@ == distortion@
                    &&& model.poses@ == poses@
                },
                None => distortion@.len() != DISTORTION_COEFFICIENT_COUNT || poses@.len()
                    != n_views,
            },
    {
        if distortion.len() == DISTORTION_COEFFICIENT_COUNT && poses.len() == n_views {
            Some(CameraModel { intrinsics, distortion, poses })
        } else {
            None
        }
    }

    /// How many views the model was solved from.
    pub fn view_count(&self) -> (n: usize)
        ensures
            n == self.poses@.len(),
    {
        self.poses.len()
    }
}

/// Decides whether a batch of correspondences may be handed to the solver:
/// accepted exactly when it holds at least `MIN_CORRESPONDENCES` views, and
/// refused with `InsufficientData` otherwise, in which case no camera model
/// is produced.
pub fn check_calibration_input(correspondences: &Vec<Correspondence>) -> (r: Result<
    usize,
    CalibrationError,
>)
    ensures
        r is Ok <==> correspondences@.len() >= MIN_CORRESPONDENCES,
        r is Ok ==> r->Ok_0 == correspondences@.len(),
        r is Err ==> r->Err_0 == CalibrationError::InsufficientData,
{
    if correspondences.len() >= MIN_CORRESPONDENCES {
        Ok(correspondences.len())
    } else {
        Err(CalibrationError::InsufficientData)
    }
}

} // verus!
