//! Camera-calibration pipeline logic: calibration-target geometry,
//! correspondence collection, solver input validation, reprojection-error
//! aggregation, and result-record assembly.
//!
//! Geometry that a lens measures in fractional pixels is represented here in
//! fixed-point micro-units (millionths), so that every computation on it is
//! exact integer arithmetic. The surrounding application converts between
//! this representation and the raster types of the imaging backend.

pub mod collect;
pub mod command_line;
pub mod config;
pub mod export;
pub mod pattern;
pub mod report;
pub mod solver;
