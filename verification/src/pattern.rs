//! The calibration target: its kind and the canonical set of pattern points.
//!
//! A planar target with `rows x cols` interior points defines the canonical
//! object-point set `{(j, i, 0) : i in [0, rows), j in [0, cols)}` in
//! pattern-local coordinates, one unit per grid cell. Every view of the
//! target contributes a fresh copy of this same set.

use vstd::arithmetic::div_mod::lemma_fundamental_div_mod_converse;
use vstd::prelude::*;

verus! {

/// One point of the calibration target, in pattern-local grid coordinates.
/// The target is planar, so `z` is always zero.
#[derive(Clone, Copy, Debug, PartialEq, Eq, Structural)]
pub struct ObjectPoint {
    pub x: u32,
    pub y: u32,
    pub z: u32,
}

/// Description of the calibration target: `rows x cols` interior points.
#[derive(Clone, Copy, Debug, PartialEq, Eq, Structural)]
pub struct PatternSpec {
    pub rows: u32,
    pub cols: u32,
}

/// The canonical object-point set of a `rows x cols` target: point `k` sits
/// at column `k % cols`, row `k / cols`, in row-major order.
pub open spec fn canonical_points(rows: u32, cols: u32) -> Seq<ObjectPoint> {
    Seq::new(
        (rows * cols) as nat,
        |k: int|
            ObjectPoint {
                x: (k % (cols as int)) as u32,
                y: (k / (cols as int)) as u32,
                z: 0u32,
            },
    )
}

impl PatternSpec {
    /// A usable target has at least one point per axis; the bound keeps the
    /// point count within what a vector index can address.
    pub open spec fn valid(self) -> bool {
        1 <= self.rows <= 0xFFFF && 1 <= self.cols <= 0xFFFF
    }

    /// How many points the canonical set has.
    pub open spec fn spec_point_count(self) -> nat {
        (self.rows * self.cols) as nat
    }

    /// The number of pattern points, `rows * cols`.
    pub fn point_count(&self) -> (n: usize)
        requires
            self.valid(),
        ensures
            n == self.spec_point_count(),
            n == canonical_points(self.rows, self.cols).len(),
    {
        proof {
            assert(self.rows * self.cols <= 0xFFFF * 0xFFFF) by (nonlinear_arith)
                requires
                    self.rows <= 0xFFFF && self.cols <= 0xFFFF,
            ;
        }
        (self.rows as usize) * (self.cols as usize)
    }

    /// Generates the canonical object-point set. The result is a pure
    /// function of `rows` and `cols`: every call yields the same points.
    pub fn object_points(&self) -> (points: Vec<ObjectPoint>)
        requires
            self.valid(),
        ensures
            points@ == canonical_points(self.rows, self.cols),
            points@.len() == self.spec_point_count(),
    {
        let mut points: Vec<ObjectPoint> = Vec::new();
        let mut i: u32 = 0;
        proof {
            assert(self.rows * self.cols <= 0xFFFF * 0xFFFF) by (nonlinear_arith)
                requires
                    self.rows <= 0xFFFF && self.cols <= 0xFFFF,
            ;
        }
        while i < self.rows
            invariant
                self.valid(),
                i <= self.rows,
                self.rows * self.cols <= 0xFFFF * 0xFFFF,
                points@.len() == i * self.cols,
                forall|k: int|
                    0 <= k < points@.len() ==> points@[k] == canonical_points(
                        self.rows,
                        self.cols,
                    )[k],
            decreases self.rows - i,
        {
            let mut j: u32 = 0;
            proof {
                assert((i + 1) * self.cols <= self.rows * self.cols) by (nonlinear_arith)
                    requires
                        i < self.rows && self.cols >= 1,
                ;
            }
            while j < self.cols
                invariant
                    self.valid(),
                    i < self.rows,
                    j <= self.cols,
                    self.rows * self.cols <= 0xFFFF * 0xFFFF,
                    (i + 1) * self.cols <= self.rows * self.cols,
                    points@.len() == i * self.cols + j,
                    forall|k: int|
                        0 <= k < points@.len() ==> points@[k] == canonical_points(
                            self.rows,
                            self.cols,
                        )[k],
                decreases self.cols - j,
            {
                proof {
                    assert(i * self.cols + j < (i + 1) * self.cols) by (nonlinear_arith)
                        requires
                            j < self.cols,
                    ;
                    lemma_fundamental_div_mod_converse(
                        i * self.cols + j,
                        self.cols as int,
                        i as int,
                        j as int,
                    );
                }
                points.push(ObjectPoint { x: j, y: i, z: 0 });
                j = j + 1;
            }
            proof {
                assert((i + 1) * self.cols == i * self.cols + self.cols) by (nonlinear_arith);
            }
            i = i + 1;
        }
        proof {
            assert(points@ =~= canonical_points(self.rows, self.cols));
        }
        points
    }
}

/// The canonical set of a valid target has exactly `rows * cols` points,
/// point `k` lies at grid column `k % cols` and row `k / cols`, and every
/// point lies in the target plane `z == 0`.
pub proof fn lemma_canonical_points_shape(spec: PatternSpec)
    requires
        spec.valid(),
    ensures
        canonical_points(spec.rows, spec.cols).len() == spec.rows * spec.cols,
        forall|k: int|
            0 <= k < canonical_points(spec.rows, spec.cols).len()
                ==> #[trigger] canonical_points(spec.rows, spec.cols)[k] == (ObjectPoint {
                x: (k % (spec.cols as int)) as u32,
                y: (k / (spec.cols as int)) as u32,
                z: 0u32,
            }),
{
}

} // verus!
