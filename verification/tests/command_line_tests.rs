use camera_calibration::command_line::{
    select_pipeline, validate_calibrate, Args, CalibrationPattern, DetectionMode, PipelineError,
};

#[test]
fn each_keyword_selects_its_pattern() {
    assert_eq!(
        validate_calibrate("chessboard"),
        Ok(CalibrationPattern::ChessBoard)
    );
    assert_eq!(
        validate_calibrate("symmetric"),
        Ok(CalibrationPattern::SymmetricCircleGrid)
    );
    assert_eq!(
        validate_calibrate("asymmetric"),
        Ok(CalibrationPattern::AsymmetricCircleGrid)
    );
    assert_eq!(validate_calibrate("charuco"), Ok(CalibrationPattern::ChArUco));
}

#[test]
fn keywords_are_matched_without_regard_to_ascii_case() {
    assert_eq!(
        validate_calibrate("ChessBoard"),
        Ok(CalibrationPattern::ChessBoard)
    );
    assert_eq!(
        validate_calibrate("SYMMETRIC"),
        Ok(CalibrationPattern::SymmetricCircleGrid)
    );
    assert_eq!(
        validate_calibrate("AsYmMeTrIc"),
        Ok(CalibrationPattern::AsymmetricCircleGrid)
    );
    assert_eq!(validate_calibrate("ChArUco"), Ok(CalibrationPattern::ChArUco));
}

#[test]
fn unknown_name_is_rejected_with_a_diagnostic() {
    let r = validate_calibrate("grid");
    assert_eq!(
        r,
        Err(String::from(
            "Invalid calibration pattern: 'grid'. Allowed values are: chessboard, symmetric, asymmetric, charuco."
        ))
    );
}

#[test]
fn empty_name_is_rejected() {
    assert!(validate_calibrate("").is_err());
}

#[test]
fn implemented_patterns_get_a_pipeline() {
    assert_eq!(
        select_pipeline(&Some(CalibrationPattern::ChessBoard)),
        Ok(DetectionMode::Chessboard)
    );
    assert_eq!(
        select_pipeline(&Some(CalibrationPattern::SymmetricCircleGrid)),
        Ok(DetectionMode::SymmetricCircleGrid)
    );
}

#[test]
fn unimplemented_patterns_fail_fast() {
    assert_eq!(
        select_pipeline(&Some(CalibrationPattern::AsymmetricCircleGrid)),
        Err(PipelineError::NotImplemented)
    );
    assert_eq!(
        select_pipeline(&Some(CalibrationPattern::ChArUco)),
        Err(PipelineError::NotImplemented)
    );
    assert_eq!(select_pipeline(&None), Err(PipelineError::NotImplemented));
}

#[test]
fn args_carry_the_selected_pattern() {
    let args = Args {
        calibrate: Some(CalibrationPattern::ChessBoard),
    };
    assert_eq!(args.calibrate, Some(CalibrationPattern::ChessBoard));
}
