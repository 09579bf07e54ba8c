//! The run's tunable constants, collapsed into one explicit configuration
//! structure instead of constants scattered across the pipeline.

use crate::pattern::PatternSpec;
use crate::solver::ImageSize;
use vstd::prelude::*;

verus! {

/// Configuration of one calibration run. The iterative stages — sub-pixel
/// corner refinement and the solver's optimization — share one stopping
/// policy: stop at `criteria_max_iterations` iterations or when the update
/// falls below `criteria_epsilon`, whichever comes first.
#[derive(Clone, Copy, Debug, PartialEq, Eq, Structural)]
pub struct CalibrationConfig {
    /// The calibration target to detect.
    pub pattern: PatternSpec,
    /// Pixel dimensions of the calibration frames.
    pub frame: ImageSize,
    /// Iteration cap of the stopping policy.
    pub criteria_max_iterations: u32,
    /// Convergence threshold of the stopping policy, in micro-units.
    pub criteria_epsilon: i64,
    /// Width of the corner-refinement search window, in pixels.
    pub corner_window_width: u32,
    /// Height of the corner-refinement search window, in pixels.
    pub corner_window_height: u32,
    /// Half-size of the masked zone around each corner candidate during
    /// refinement; `-1` disables the mask.
    pub corner_zero_zone: i32,
}

impl CalibrationConfig {
    /// A usable configuration: a valid target, a frame with area, at least
    /// one iteration, a non-negative threshold, a non-empty refinement
    /// window, and a zero-zone of `-1` (disabled) or wider.
    pub open spec fn valid(self) -> bool {
        &&& self.pattern.valid()
        &&& self.frame.width >= 1
        &&& self.frame.height >= 1
        &&& self.criteria_max_iterations >= 1
        &&& self.criteria_epsilon >= 0
        &&& self.corner_window_width >= 1
        &&& self.corner_window_height >= 1
        &&& self.corner_zero_zone >= -1
    }
}

impl core::default::Default for CalibrationConfig {
    /// The defaults of the pipeline: a 9x6 chessboard in 1440x1080 frames,
    /// 30 iterations or an update below 0.001 units, an 11x11 refinement
    /// window, and no zero-zone mask.
    fn default() -> (d: Self)
        ensures
            d == (CalibrationConfig {
                pattern: PatternSpec { rows: 6, cols: 9 },
                frame: ImageSize { width: 1440, height: 1080 },
                criteria_max_iterations: 30,
                criteria_epsilon: 1000,
                corner_window_width: 11,
                corner_window_height: 11,
                corner_zero_zone: -1i32,
            }),
            d.valid(),
    {
        CalibrationConfig {
            pattern: PatternSpec { rows: 6, cols: 9 },
            frame: ImageSize { width: 1440, height: 1080 },
            criteria_max_iterations: 30,
            criteria_epsilon: 1000,
            corner_window_width: 11,
            corner_window_height: 11,
            corner_zero_zone: -1,
        }
    }
}

} // verus!
