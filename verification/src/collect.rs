//! Correspondence collection: pairing the canonical pattern points with the
//! points detected in each image, and tracking the images where detection
//! failed.
//!
//! Detection itself runs outside this crate; the collector is fed one
//! outcome per image, in input order. A failed image is recorded and the
//! run continues — failure of one view is never fatal for the batch.

use crate::pattern::{canonical_points, ObjectPoint, PatternSpec};
use vstd::prelude::*;

verus! {

/// A detected image location, in fixed-point micro-pixels (millionths of a
/// pixel), which keeps sub-pixel precision in integer form.
#[derive(Clone, Copy, Debug, PartialEq, Eq, Structural)]
pub struct PixelPoint {
    pub x: i64,
    pub y: i64,
}

/// Largest coordinate magnitude, in micro-pixels, that the error arithmetic
/// is proved overflow-free for (a million pixels).
pub const COORD_LIMIT: i64 = 1_000_000_000_000;

impl PixelPoint {
    /// Both coordinates lie within `COORD_LIMIT` micro-pixels.
    pub open spec fn in_range(self) -> bool {
        -COORD_LIMIT <= self.x <= COORD_LIMIT && -COORD_LIMIT <= self.y <= COORD_LIMIT
    }
}

/// One successfully detected view: the canonical object points of the
/// target paired with the locations detected in that image, plus the image
/// identifier for diagnostics.
pub struct Correspondence {
    pub object_points: Vec<ObjectPoint>,
    pub image_points: Vec<PixelPoint>,
    pub source_id: String,
}

impl Correspondence {
    /// The view belongs to the given target: its object points are exactly
    /// the canonical set, and it has one detected location per pattern
    /// point, each within coordinate range.
    pub open spec fn matches(self, pattern: PatternSpec) -> bool {
        &&& self.object_points@ == canonical_points(pattern.rows, pattern.cols)
        &&& self.image_points@.len() == pattern.spec_point_count()
        &&& forall|i: int|
            0 <= i < self.image_points@.len() ==> (#[trigger] self.image_points@[i]).in_range()
    }
}

/// Accumulates detection outcomes over an image set: correspondences for
/// the images where the pattern was found, identifiers of the rest.
pub struct Collector {
    pub pattern: PatternSpec,
    pub correspondences: Vec<Correspondence>,
    pub failed: Vec<String>,
}

impl Collector {
    /// Every collected correspondence belongs to the collector's target;
    /// in particular each one carries an identical, freshly generated copy
    /// of the canonical object-point set.
    pub open spec fn wf(self) -> bool {
        &&& self.pattern.valid()
        &&& forall|i: int|
            0 <= i < self.correspondences@.len() ==> (#[trigger] self.correspondences@[i]).matches(
                self.pattern,
            )
    }

    /// An empty collector for the given target.
    pub fn new(pattern: PatternSpec) -> (c: Self)
        requires
            pattern.valid(),
        ensures
            c.wf(),
            c.pattern == pattern,
            c.correspondences@.len() == 0,
            c.failed@.len() == 0,
    {
        Collector { pattern, correspondences: Vec::new(), failed: Vec::new() }
    }

    /// Records one image's detection outcome. A found pattern appends a
    /// correspondence that pairs a fresh copy of the canonical object
    /// points with the detected locations; a miss appends the image
    /// identifier to the failure list and leaves the correspondences
    /// untouched.
    pub fn record_detection(&mut self, source_id: String, outcome: Option<Vec<PixelPoint>>)
        requires
            old(self).wf(),
            outcome is Some ==> outcome->0@.len() == old(self).pattern.spec_point_count(),
            outcome is Some ==> forall|i: int|
                0 <= i < outcome->0@.len() ==> (#[trigger] outcome->0@[i]).in_range(),
        ensures
            final(self).wf(),
            final(self).pattern == old(self).pattern,
            match outcome {
                Some(points) => {
                    &&& final(self).correspondences@.len() == old(self).correspondences@.len() + 1
                    &&& forall|i: int|
                        0 <= i < old(self).correspondences@.len()
                            ==> #[trigger] final(self).correspondences@[i] == old(
                            self,
                        ).correspondences@[i]
                    &&& final(self).correspondences@.last().object_points@ == canonical_points(
                        old(self).pattern.rows,
                        old(self).pattern.cols,
                    )
                    &&& final(self).correspondences@.last().image_points == points
                    &&& final(self).correspondences@.last().source_id == source_id
                    &&& final(self).failed@ == old(self).failed@
                },
                None => {
                    &&& final(self).correspondences@ == old(self).correspondences@
                    &&& final(self).failed@ == old(self).failed@.push(source_id)
                },
            },
    {
        match outcome {
            Some(points) => {
                let pattern = self.pattern;
                let object_points = pattern.object_points();
                self.correspondences.push(
                    Correspondence { object_points, image_points: points, source_id },
                );
            },
            None => {
                self.failed.push(source_id);
            },
        }
    }

    /// Whether a failure report is owed: the policy is that a run without
    /// detection failures produces no report at all.
    pub fn has_failures(&self) -> (r: bool)
        ensures
            r == (self.failed@.len() > 0),
    {
        self.failed.len() > 0
    }
}

/// Every correspondence a collector accumulates carries the same
/// object-point set — the canonical set of its target, regenerated
/// identically for each view.
pub proof fn lemma_object_points_regenerated_identically(c: Collector, i: int, j: int)
    requires
        c.wf(),
        0 <= i < c.correspondences@.len(),
        0 <= j < c.correspondences@.len(),
    ensures
        c.correspondences@[i].object_points@ == canonical_points(c.pattern.rows, c.pattern.cols),
        c.correspondences@[i].object_points@ == c.correspondences@[j].object_points@,
{
}

} // verus!
