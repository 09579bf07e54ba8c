//! Reprojection-error evaluation: the root-mean-square error of one view
//! and the aggregate report over all views.
//!
//! Projection of the object points through a solved pose runs in the
//! imaging backend outside this crate; each view's error is computed here
//! from the observed and the predicted locations, in exact fixed-point
//! arithmetic, and a view whose projection failed (a numerically degenerate
//! pose) contributes the sentinel error zero rather than aborting the rest
//! of the evaluation.

use crate::collect::{Correspondence, PixelPoint};
use crate::pattern::PatternSpec;
use vstd::arithmetic::div_mod::lemma_fundamental_div_mod;
use vstd::arithmetic::mul::lemma_mul_inequality;
use vstd::prelude::*;

verus! {

/// Squared Euclidean distance between an observed and a predicted image
/// location, in squared micro-pixels.
pub open spec fn squared_distance(a: PixelPoint, b: PixelPoint) -> int {
    (a.x - b.x) * (a.x - b.x) + (a.y - b.y) * (a.y - b.y)
}

/// Sum of the squared distances between corresponding points of two
/// equally long sequences.
pub open spec fn sum_squared_distances(observed: Seq<PixelPoint>, projected: Seq<PixelPoint>) -> int
    recommends
        observed.len() == projected.len(),
    decreases observed.len(),
{
    if observed.len() == 0 {
        0
    } else {
        sum_squared_distances(observed.drop_last(), projected.drop_last()) + squared_distance(
            observed.last(),
            projected.last(),
        )
    }
}

/// `r` is the integer square root of `m`, rounded down.
pub open spec fn is_floor_sqrt(r: int, m: int) -> bool {
    0 <= r && r * r <= m && m < (r + 1) * (r + 1)
}

/// Sum of a sequence of per-view errors.
pub open spec fn sum_errors(s: Seq<u64>) -> int
    decreases s.len(),
{
    if s.len() == 0 {
        0
    } else {
        sum_errors(s.drop_last()) + s.last()
    }
}

/// The sum of per-view errors is never negative.
pub proof fn lemma_sum_errors_nonneg(s: Seq<u64>)
    ensures
        sum_errors(s) >= 0,
    decreases s.len(),
{
    if s.len() > 0 {
        lemma_sum_errors_nonneg(s.drop_last());
    }
}

/// Integer square root, rounded down, over the whole input domain.
fn isqrt(m: u128) -> (r: u64)
    ensures
        is_floor_sqrt(r as int, m as int),
{
    let mut lo: u128 = 0;
    let mut hi: u128 = 0x1_0000_0000_0000_0000;
    proof {
        assert((0x1_0000_0000_0000_0000 as int) * (0x1_0000_0000_0000_0000 as int) > m as int)
            by (nonlinear_arith)
            requires
                m <= u128::MAX,
        ;
    }
    while lo + 1 < hi
        invariant
            lo < hi <= 0x1_0000_0000_0000_0000,
            (lo as int) * (lo as int) <= m as int,
            (m as int) < (hi as int) * (hi as int),
        decreases hi - lo,
    {
        let mid: u128 = lo + (hi - lo) / 2;
        proof {
            assert(lo < mid < hi);
            assert((mid as int) * (mid as int) <= (0xFFFF_FFFF_FFFF_FFFF as int) * (
            0xFFFF_FFFF_FFFF_FFFF as int)) by (nonlinear_arith)
                requires
                    0 <= mid <= 0xFFFF_FFFF_FFFF_FFFF,
            ;
        }
        if mid * mid <= m {
            lo = mid;
        } else {
            hi = mid;
        }
    }
    proof {
        assert(hi == lo + 1);
        assert(lo <= 0xFFFF_FFFF_FFFF_FFFF);
    }
    lo as u64
}

/// Root-mean-square reprojection error of one view, in micro-pixels: the
/// integer square root (rounded down) of the mean squared distance between
/// each observed point and its prediction.
pub fn view_rms_error(observed: &Vec<PixelPoint>, projected: &Vec<PixelPoint>) -> (rms: u64)
    requires
        observed@.len() == projected@.len(),
        1 <= observed@.len() <= 0xFFFF_FFFF,
        forall|i: int| 0 <= i < observed@.len() ==> (#[trigger] observed@[i]).in_range(),
        forall|i: int| 0 <= i < projected@.len() ==> (#[trigger] projected@[i]).in_range(),
    ensures
        is_floor_sqrt(
            rms as int,
            sum_squared_distances(observed@, projected@) / (observed@.len() as int),
        ),
{
    let n = observed.len();
    let mut sum: u128 = 0;
    let mut k: usize = 0;
    while k < n
        invariant
            n == observed@.len() == projected@.len(),
            1 <= n <= 0xFFFF_FFFF,
            forall|i: int| 0 <= i < observed@.len() ==> (#[trigger] observed@[i]).in_range(),
            forall|i: int| 0 <= i < projected@.len() ==> (#[trigger] projected@[i]).in_range(),
            k <= n,
            sum as int == sum_squared_distances(
                observed@.take(k as int),
                projected@.take(k as int),
            ),
            sum as int <= (k as int) * 8_000_000_000_000_000_000_000_000,
        decreases n - k,
    {
        let ox = observed[k].x;
        let oy = observed[k].y;
        let px = projected[k].x;
        let py = projected[k].y;
        let dx: i64 = ox - px;
        let dy: i64 = oy - py;
        proof {
            assert((dx as int) * (dx as int) + (dy as int) * (dy as int)
                <= 8_000_000_000_000_000_000_000_000 && (dx as int) * (dx as int) >= 0 && (
            dy as int) * (dy as int) >= 0) by (nonlinear_arith)
                requires
                    -2_000_000_000_000 <= dx as int <= 2_000_000_000_000,
                    -2_000_000_000_000 <= dy as int <= 2_000_000_000_000,
            ;
        }
        let d2: u128 = ((dx as i128) * (dx as i128) + (dy as i128) * (dy as i128)) as u128;
        proof {
            assert(d2 as int == squared_distance(observed@[k as int], projected@[k as int]));
            assert((k as int) * 8_000_000_000_000_000_000_000_000 + 8_000_000_000_000_000_000_000_000
                == ((k + 1) as int) * 8_000_000_000_000_000_000_000_000) by (nonlinear_arith);
            lemma_mul_inequality(
                (k + 1) as int,
                0x1_0000_0000,
                8_000_000_000_000_000_000_000_000,
            );
            assert(observed@.take(k + 1 as int).drop_last() =~= observed@.take(k as int));
            assert(projected@.take(k + 1 as int).drop_last() =~= projected@.take(k as int));
            assert(observed@.take(k + 1 as int).last() == observed@[k as int]);
            assert(projected@.take(k + 1 as int).last() == projected@[k as int]);
        }
        sum = sum + d2;
        k = k + 1;
    }
    proof {
        assert(observed@.take(n as int) =~= observed@);
        assert(projected@.take(n as int) =~= projected@);
    }
    let mean: u128 = sum / (n as u128);
    proof {
        assert(mean as int == sum_squared_distances(observed@, projected@) / (
        observed@.len() as int));
    }
    isqrt(mean)
}

/// The evaluation result: one non-negative error per view, and their
/// arithmetic mean (rounded down to a whole micro-pixel).
pub struct ErrorReport {
    pub per_image_error: Vec<u64>,
    pub mean_error: u64,
}

impl ErrorReport {
    /// The report covers at least one view and its aggregate is the
    /// arithmetic mean of the per-view errors.
    pub open spec fn wf(self) -> bool {
        &&& self.per_image_error@.len() >= 1
        &&& self.mean_error as int == sum_errors(self.per_image_error@) / (
        self.per_image_error@.len() as int)
    }

    /// Aggregates the per-view outcomes into a report: a view whose
    /// projection succeeded contributes its error, a view whose projection
    /// failed contributes the sentinel zero, and the aggregate is the
    /// arithmetic mean over all views.
    pub fn from_view_outcomes(view_outcomes: Vec<Option<u64>>) -> (r: ErrorReport)
        requires
            view_outcomes@.len() >= 1,
        ensures
            r.wf(),
            r.per_image_error@.len() == view_outcomes@.len(),
            forall|i: int|
                0 <= i < view_outcomes@.len() ==> r.per_image_error@[i] == match view_outcomes@[i] {
                    Some(e) => e,
                    None => 0u64,
                },
            r.mean_error as int == sum_errors(r.per_image_error@) / (view_outcomes@.len() as int),
    {
        let n = view_outcomes.len();
        let mut per_image_error: Vec<u64> = Vec::new();
        let mut sum: u128 = 0;
        let mut k: usize = 0;
        while k < n
            invariant
                n == view_outcomes@.len(),
                k <= n,
                per_image_error@.len() == k,
                forall|i: int|
                    0 <= i < k ==> per_image_error@[i] == match view_outcomes@[i] {
                        Some(e) => e,
                        None => 0u64,
                    },
                sum as int == sum_errors(per_image_error@),
                sum as int <= (k as int) * (u64::MAX as int),
            decreases n - k,
        {
            let e: u64 = match view_outcomes[k] {
                Some(e) => e,
                None => 0,
            };
            proof {
                assert((k as int) * (u64::MAX as int) + (u64::MAX as int) == ((k + 1) as int) * (
                u64::MAX as int)) by (nonlinear_arith);
                lemma_mul_inequality((k + 1) as int, u64::MAX as int, u64::MAX as int);
                assert(per_image_error@.push(e).drop_last() =~= per_image_error@);
            }
            per_image_error.push(e);
            sum = sum + (e as u128);
            k = k + 1;
        }
        let mean_128: u128 = sum / (n as u128);
        proof {
            lemma_sum_errors_nonneg(per_image_error@);
            assert(mean_128 <= u64::MAX) by (nonlinear_arith)
                requires
                    mean_128 as int == sum as int / (n as int),
                    sum as int <= (n as int) * (u64::MAX as int),
                    1 <= n,
            ;
        }
        let mean_error: u64 = mean_128 as u64;
        ErrorReport { per_image_error, mean_error }
    }
}

/// Evaluates the reprojection error of a whole batch: one view's error is
/// the root-mean-square distance between its observed points and the
/// predictions projected for it, a view whose projection failed contributes
/// the sentinel zero, and the aggregate is the arithmetic mean over all
/// views.
pub fn evaluate(
    correspondences: &Vec<Correspondence>,
    projections: &Vec<Option<Vec<PixelPoint>>>,
    pattern: PatternSpec,
) -> (r: ErrorReport)
    requires
        pattern.valid(),
        correspondences@.len() == projections@.len(),
        correspondences@.len() >= 1,
        forall|i: int|
            0 <= i < correspondences@.len() ==> (#[trigger] correspondences@[i]).matches(pattern),
        forall|i: int|
            0 <= i < projections@.len() ==> match #[trigger] projections@[i] {
                Some(pts) => {
                    &&& pts@.len() == correspondences@[i].image_points@.len()
                    &&& forall|j: int| 0 <= j < pts@.len() ==> (#[trigger] pts@[j]).in_range()
                },
                None => true,
            },
    ensures
        r.wf(),
        r.per_image_error@.len() == correspondences@.len(),
        forall|i: int|
            0 <= i < projections@.len() ==> match projections@[i] {
                Some(pts) => is_floor_sqrt(
                    #[trigger] r.per_image_error@[i] as int,
                    sum_squared_distances(correspondences@[i].image_points@, pts@) / (
                    correspondences@[i].image_points@.len() as int),
                ),
                None => r.per_image_error@[i] == 0u64,
            },
        r.mean_error as int == sum_errors(r.per_image_error@) / (correspondences@.len() as int),
{
    let n = correspondences.len();
    let mut outcomes: Vec<Option<u64>> = Vec::new();
    let mut i: usize = 0;
    while i < n
        invariant
            pattern.valid(),
            n == correspondences@.len() == projections@.len(),
            forall|k: int|
                0 <= k < correspondences@.len() ==> (#[trigger] correspondences@[k]).matches(
                    pattern,
                ),
            forall|k: int|
                0 <= k < projections@.len() ==> match #[trigger] projections@[k] {
                    Some(pts) => {
                        &&& pts@.len() == correspondences@[k].image_points@.len()
                        &&& forall|j: int| 0 <= j < pts@.len() ==> (#[trigger] pts@[j]).in_range()
                    },
                    None => true,
                },
            i <= n,
            outcomes@.len() == i,
            forall|k: int|
                0 <= k < i ==> match projections@[k] {
                    Some(pts) => #[trigger] outcomes@[k] matches Some(e) && is_floor_sqrt(
                        e as int,
                        sum_squared_distances(correspondences@[k].image_points@, pts@) / (
                        correspondences@[k].image_points@.len() as int),
                    ),
                    None => outcomes@[k] is None,
                },
        decreases n - i,
    {
        let outcome: Option<u64> = match &projections[i] {
            Some(pts) => {
                proof {
                    assert(correspondences@[i as int].matches(pattern));
                    assert(pattern.rows * pattern.cols <= 0xFFFF * 0xFFFF) by (nonlinear_arith)
                        requires
                            pattern.rows <= 0xFFFF && pattern.cols <= 0xFFFF,
                    ;
                    assert(pattern.rows * pattern.cols >= 1) by (nonlinear_arith)
                        requires
                            pattern.rows >= 1 && pattern.cols >= 1,
                    ;
                }
                Some(view_rms_error(&correspondences[i].image_points, pts))
            },
            None => None,
        };
        outcomes.push(outcome);
        i = i + 1;
    }
    ErrorReport::from_view_outcomes(outcomes)
}

/// The aggregate error of a report equals the arithmetic mean of its
/// per-view errors, to the fixed-point floor: `mean * n` never exceeds the
/// total, and falls short of it by less than `n`. Both the per-view errors
/// and the mean are non-negative.
pub proof fn lemma_mean_is_arithmetic_mean(r: ErrorReport)
    requires
        r.wf(),
    ensures
        (r.mean_error as int) * (r.per_image_error@.len() as int) <= sum_errors(r.per_image_error@),
        sum_errors(r.per_image_error@) < (r.mean_error as int + 1) * (
        r.per_image_error@.len() as int),
        r.mean_error >= 0,
        forall|i: int| 0 <= i < r.per_image_error@.len() ==> r.per_image_error@[i] >= 0,
{
    let s = sum_errors(r.per_image_error@);
    let n = r.per_image_error@.len() as int;
    lemma_sum_errors_nonneg(r.per_image_error@);
    lemma_fundamental_div_mod(s, n);
    assert((r.mean_error as int) * n == n * (s / n)) by (nonlinear_arith)
        requires
            r.mean_error as int == s / n,
    ;
    assert((r.mean_error as int + 1) * n == n * (s / n) + n) by (nonlinear_arith)
        requires
            r.mean_error as int == s / n,
    ;
}

} // verus!
