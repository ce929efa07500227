use liblbfgs_compliant_rs::status::{code_to_status, Convergence, LbfgsError, LineSearch};

const ALL_ERRORS: [LbfgsError; 29] = [
    LbfgsError::UnknownError,
    LbfgsError::LogicError,
    LbfgsError::OutOfMemory,
    LbfgsError::Canceled,
    LbfgsError::InvalidN,
    LbfgsError::InvalidEpsilon,
    LbfgsError::InvalidTestPeriod,
    LbfgsError::InvalidDelta,
    LbfgsError::InvalidLineSearch,
    LbfgsError::InvalidMinStep,
    LbfgsError::InvalidMaxStep,
    LbfgsError::InvalidFtol,
    LbfgsError::InvalidWolfe,
    LbfgsError::InvalidGtol,
    LbfgsError::InvalidXtol,
    LbfgsError::InvalidMaxLineSearch,
    LbfgsError::InvalidOrthantwise,
    LbfgsError::InvalidOrthantwiseStart,
    LbfgsError::InvalidOrthantwiseEnd,
    LbfgsError::OutOfInterval,
    LbfgsError::IncorrectTMinMax,
    LbfgsError::RoundingError,
    LbfgsError::MinimumStep,
    LbfgsError::MaximumStep,
    LbfgsError::MaximumLineSearch,
    LbfgsError::MaximumIteration,
    LbfgsError::WidthTooSmall,
    LbfgsError::InvalidParameters,
    LbfgsError::IncreaseGradient,
];

#[test]
fn line_search_default_is_more_thuente() {
    assert_eq!(LineSearch::default(), LineSearch::MoreThuente);
}

#[test]
fn line_search_codes() {
    assert_eq!(LineSearch::MoreThuente.code(), 0);
    assert_eq!(LineSearch::BacktrackingArmijo.code(), 1);
    assert_eq!(LineSearch::BacktrackingWolfe.code(), 2);
    assert_eq!(LineSearch::BacktrackingStrongWolfe.code(), 3);
}

#[test]
fn success_codes_map_to_convergence() {
    assert_eq!(code_to_status(0), Ok(Convergence::Gradient));
    assert_eq!(code_to_status(1), Ok(Convergence::Delta));
    assert_eq!(code_to_status(2), Ok(Convergence::AlreadyMinimized));
    assert_eq!(Convergence::Gradient.code(), 0);
    assert_eq!(Convergence::Delta.code(), 1);
    assert_eq!(Convergence::AlreadyMinimized.code(), 2);
}

#[test]
fn error_codes_round_trip() {
    for e in ALL_ERRORS.iter() {
        assert!(e.code() < 0);
        assert_eq!(code_to_status(e.code()), Err(*e));
    }
}

#[test]
fn error_codes_are_distinct() {
    for (i, a) in ALL_ERRORS.iter().enumerate() {
        for (j, b) in ALL_ERRORS.iter().enumerate() {
            assert_eq!(i == j, a.code() == b.code());
        }
    }
}

#[test]
fn specific_error_codes() {
    assert_eq!(LbfgsError::UnknownError.code(), -1024);
    assert_eq!(LbfgsError::InvalidN.code(), -1020);
    assert_eq!(LbfgsError::InvalidEpsilon.code(), -1017);
    assert_eq!(LbfgsError::MaximumIteration.code(), -997);
    assert_eq!(LbfgsError::IncreaseGradient.code(), -994);
    assert_eq!(code_to_status(-1001), Err(LbfgsError::RoundingError));
}

#[test]
fn other_codes_read_as_cancel() {
    assert_eq!(code_to_status(3), Err(LbfgsError::Canceled));
    assert_eq!(code_to_status(17), Err(LbfgsError::Canceled));
    assert_eq!(code_to_status(-1019), Err(LbfgsError::Canceled));
    assert_eq!(code_to_status(-5), Err(LbfgsError::Canceled));
    assert_eq!(code_to_status(i32::MIN), Err(LbfgsError::Canceled));
}

#[test]
fn error_messages() {
    assert_eq!(LbfgsError::UnknownError.message(), "Unknown error");
    assert_eq!(LbfgsError::Canceled.message(), "The minimization process has been canceled");
    assert_eq!(LbfgsError::InvalidN.message(), "Invalid number of variables specified");
    assert_eq!(LbfgsError::InvalidTestPeriod.message(), "Invalid past");
    assert_eq!(LbfgsError::InvalidOrthantwise.message(), "Invalid orthantwise_c");
    assert_eq!(LbfgsError::IncorrectTMinMax.message(), "Interval of uncertainty became too small");
    assert_eq!(LbfgsError::WidthTooSmall.message(), "Interval of uncertainty width at most xtol");
    assert_eq!(LbfgsError::InvalidParameters.message(), "Negative line-search step");
    assert_eq!(
        LbfgsError::IncreaseGradient.message(),
        "Search direction increases the objective function"
    );
}

#[test]
fn error_messages_are_distinct() {
    for (i, a) in ALL_ERRORS.iter().enumerate() {
        for (j, b) in ALL_ERRORS.iter().enumerate() {
            assert_eq!(i == j, a.message() == b.message());
        }
    }
}
