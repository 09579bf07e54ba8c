//! Run-time pattern selection: the argument record, the pattern names the
//! command line accepts, and the dispatch to an implemented pipeline.

use vstd::prelude::*;
use vstd::string::StrSliceExecFns;
use vstd::string::StringExecFns;

verus! {

/// The calibration targets selectable on the command line. Only the
/// chessboard and the symmetric circle grid have a pipeline; the other two
/// are refused at dispatch, never silently substituted.
#[derive(Clone, Copy, Debug, PartialEq, Eq, Structural)]
pub enum CalibrationPattern {
    ChessBoard,
    SymmetricCircleGrid,
    AsymmetricCircleGrid,
    ChArUco,
}

/// The parsed command line: which pattern to calibrate with, if any.
#[derive(Clone, Copy, Debug, PartialEq)]
pub struct Args {
    pub calibrate: Option<CalibrationPattern>,
}

/// The detector variants the pipeline implements.
#[derive(Clone, Copy, Debug, PartialEq, Eq, Structural)]
pub enum DetectionMode {
    Chessboard,
    SymmetricCircleGrid,
}

/// Why a run could not start.
#[derive(Clone, Copy, Debug, PartialEq, Eq, Structural)]
pub enum PipelineError {
    /// The selected pattern kind has no implemented pipeline.
    NotImplemented,
}

/// The ASCII code of `c` with an upper-case letter folded to lower case;
/// every other character keeps its code.
pub open spec fn lower_code(c: char) -> int {
    if 65 <= c as u32 <= 90 {
        c as u32 + 32
    } else {
        c as u32 as int
    }
}

/// ASCII case-insensitive equality of two character sequences.
pub open spec fn matches_keyword(s: Seq<char>, kw: Seq<char>) -> bool {
    s.len() == kw.len() && forall|i: int| 0 <= i < s.len() ==> lower_code(s[i]) == lower_code(kw[i])
}

/// The diagnostic for a pattern name that is not on the accepted list.
pub open spec fn invalid_pattern_message(val: Seq<char>) -> Seq<char> {
    "Invalid calibration pattern: '"@ + val
        + "'. Allowed values are: chessboard, symmetric, asymmetric, charuco."@
}

fn lower_char_code(c: char) -> (r: u32)
    ensures
        r == lower_code(c),
{
    let code = c as u32;
    if 65 <= code && code <= 90 {
        code + 32
    } else {
        code
    }
}

fn eq_ignore_ascii_case(s: &str, kw: &str) -> (r: bool)
    ensures
        r == matches_keyword(s@, kw@),
{
    let n = s.unicode_len();
    if n != kw.unicode_len() {
        return false;
    }
    let mut i: usize = 0;
    while i < n
        invariant
            n == s@.len(),
            n == kw@.len(),
            i <= n,
            forall|j: int| 0 <= j < i ==> lower_code(s@[j]) == lower_code(kw@[j]),
        decreases n - i,
    {
        let a = lower_char_code(s.get_char(i));
        let b = lower_char_code(kw.get_char(i));
        if a != b {
            return false;
        }
        i = i + 1;
    }
    true
}

/// No character sequence names two different accepted patterns: the four
/// keywords are pairwise distinct under ASCII case folding.
proof fn lemma_keywords_distinct(s: Seq<char>)
    ensures
        matches_keyword(s, "chessboard"@) ==> !matches_keyword(s, "symmetric"@)
            && !matches_keyword(s, "asymmetric"@) && !matches_keyword(s, "charuco"@),
        matches_keyword(s, "symmetric"@) ==> !matches_keyword(s, "asymmetric"@)
            && !matches_keyword(s, "charuco"@),
        matches_keyword(s, "asymmetric"@) ==> !matches_keyword(s, "charuco"@),
{
    reveal_strlit("chessboard");
    reveal_strlit("symmetric");
    reveal_strlit("asymmetric");
    reveal_strlit("charuco");
    if matches_keyword(s, "chessboard"@) && matches_keyword(s, "asymmetric"@) {
        assert(lower_code(s[0]) == lower_code("chessboard"@[0]));
        assert(lower_code(s[0]) == lower_code("asymmetric"@[0]));
        assert(false);
    }
}

/// Maps a pattern name to the pattern it selects: each of `chessboard`,
/// `symmetric`, `asymmetric` and `charuco`, compared without regard to
/// ASCII case, yields its pattern, and any other string is rejected with a
/// diagnostic that repeats the offending value and lists the accepted
/// names.
pub fn validate_calibrate(val: &str) -> (r: Result<CalibrationPattern, String>)
    ensures
        r == Ok::<CalibrationPattern, String>(CalibrationPattern::ChessBoard) <==> matches_keyword(
            val@,
            "chessboard"@,
        ),
        r == Ok::<CalibrationPattern, String>(CalibrationPattern::SymmetricCircleGrid)
            <==> matches_keyword(val@, "symmetric"@),
        r == Ok::<CalibrationPattern, String>(CalibrationPattern::AsymmetricCircleGrid)
            <==> matches_keyword(val@, "asymmetric"@),
        r == Ok::<CalibrationPattern, String>(CalibrationPattern::ChArUco) <==> matches_keyword(
            val@,
            "charuco"@,
        ),
        r is Err <==> !matches_keyword(val@, "chessboard"@) && !matches_keyword(val@, "symmetric"@)
            && !matches_keyword(val@, "asymmetric"@) && !matches_keyword(val@, "charuco"@),
        r is Err ==> r->Err_0@ == invalid_pattern_message(val@),
{
    proof {
        lemma_keywords_distinct(val@);
    }
    if eq_ignore_ascii_case(val, "chessboard") {
        Ok(CalibrationPattern::ChessBoard)
    } else if eq_ignore_ascii_case(val, "symmetric") {
        Ok(CalibrationPattern::SymmetricCircleGrid)
    } else if eq_ignore_ascii_case(val, "asymmetric") {
        Ok(CalibrationPattern::AsymmetricCircleGrid)
    } else if eq_ignore_ascii_case(val, "charuco") {
        Ok(CalibrationPattern::ChArUco)
    } else {
        let message = String::from_str("Invalid calibration pattern: '").concat(val).concat(
            "'. Allowed values are: chessboard, symmetric, asymmetric, charuco.",
        );
        proof {
            assert(message@ =~= invalid_pattern_message(val@));
        }
        Err(message)
    }
}

/// Selects the pipeline for the requested pattern: the chessboard and the
/// symmetric circle grid each have one; any other request — the patterns
/// without an implementation, or no request at all — fails fast with
/// `NotImplemented`.
pub fn select_pipeline(calibrate: &Option<CalibrationPattern>) -> (r: Result<
    DetectionMode,
    PipelineError,
>)
    ensures
        r == Ok::<DetectionMode, PipelineError>(DetectionMode::Chessboard) <==> *calibrate == Some(
            CalibrationPattern::ChessBoard,
        ),
        r == Ok::<DetectionMode, PipelineError>(DetectionMode::SymmetricCircleGrid) <==> *calibrate
            == Some(CalibrationPattern::SymmetricCircleGrid),
        r is Err <==> *calibrate != Some(CalibrationPattern::ChessBoard) && *calibrate != Some(
            CalibrationPattern::SymmetricCircleGrid,
        ),
        r is Err ==> r->Err_0 == PipelineError::NotImplemented,
{
    match calibrate {
        Some(CalibrationPattern::ChessBoard) => Ok(DetectionMode::Chessboard),
        Some(CalibrationPattern::SymmetricCircleGrid) => Ok(DetectionMode::SymmetricCircleGrid),
        _ => Err(PipelineError::NotImplemented),
    }
}

} // verus!
