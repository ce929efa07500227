//! Status codes of the optimizer and the public enums that name them.

use vstd::prelude::*;

verus! {

/// Line search algorithm selection.
#[derive(Debug, Copy, Clone, PartialEq, Eq, Structural)]
pub enum LineSearch {
    /// More-Thuente method satisfying the strong Wolfe conditions (default).
    MoreThuente,
    /// Backtracking with the sufficient decrease (Armijo) condition only.
    BacktrackingArmijo,
    /// Backtracking with the sufficient decrease and curvature (Wolfe) conditions.
    BacktrackingWolfe,
    /// Backtracking with the sufficient decrease and strong curvature conditions.
    BacktrackingStrongWolfe,
}

/// Code of [`LineSearch::MoreThuente`].
pub const LBFGS_LINESEARCH_MORETHUENTE: i32 = 0;
/// Code of [`LineSearch::BacktrackingArmijo`].
pub const LBFGS_LINESEARCH_BACKTRACKING_ARMIJO: i32 = 1;
/// Code of [`LineSearch::BacktrackingWolfe`], the backtracking search of OWL-QN.
pub const LBFGS_LINESEARCH_BACKTRACKING_WOLFE: i32 = 2;
/// Code of [`LineSearch::BacktrackingStrongWolfe`].
pub const LBFGS_LINESEARCH_BACKTRACKING_STRONG_WOLFE: i32 = 3;

impl LineSearch {
    /// The numeric code of the algorithm (`LBFGS_LINESEARCH_*`).
    pub open spec fn spec_code(self) -> int {
        match self {
            LineSearch::MoreThuente => 0,
            LineSearch::BacktrackingArmijo => 1,
            LineSearch::BacktrackingWolfe => 2,
            LineSearch::BacktrackingStrongWolfe => 3,
        }
    }

    /// Returns the numeric code of the algorithm.
    pub fn code(&self) -> (r: i32)
        ensures
            r == self.spec_code(),
    {
        match self {
            LineSearch::MoreThuente => LBFGS_LINESEARCH_MORETHUENTE,
            LineSearch::BacktrackingArmijo => LBFGS_LINESEARCH_BACKTRACKING_ARMIJO,
            LineSearch::BacktrackingWolfe => LBFGS_LINESEARCH_BACKTRACKING_WOLFE,
            LineSearch::BacktrackingStrongWolfe => LBFGS_LINESEARCH_BACKTRACKING_STRONG_WOLFE,
        }
    }
}

impl Default for LineSearch {
    fn default() -> (r: Self)
        ensures
            r == LineSearch::MoreThuente,
    {
        LineSearch::MoreThuente
    }
}


/// Status code: the gradient convergence test succeeded.
pub const LBFGS_SUCCESS: i32 = 0;
/// Status code: the delta-based stopping test succeeded.
pub const LBFGS_STOP: i32 = 1;
/// Status code: the initial point already satisfies the gradient test.
pub const LBFGS_ALREADY_MINIMIZED: i32 = 2;
/// Error code of [`LbfgsError::UnknownError`].
pub const LBFGSERR_UNKNOWNERROR: i32 = -1024;
/// Error code of [`LbfgsError::LogicError`].
pub const LBFGSERR_LOGICERROR: i32 = -1023;
/// Error code of [`LbfgsError::OutOfMemory`].
pub const LBFGSERR_OUTOFMEMORY: i32 = -1022;
/// Error code of [`LbfgsError::Canceled`].
pub const LBFGSERR_CANCELED: i32 = -1021;
/// Error code of [`LbfgsError::InvalidN`].
pub const LBFGSERR_INVALID_N: i32 = -1020;
/// Error code of [`LbfgsError::InvalidEpsilon`].
pub const LBFGSERR_INVALID_EPSILON: i32 = -1017;
/// Error code of [`LbfgsError::InvalidTestPeriod`].
pub const LBFGSERR_INVALID_TESTPERIOD: i32 = -1016;
/// Error code of [`LbfgsError::InvalidDelta`].
pub const LBFGSERR_INVALID_DELTA: i32 = -1015;
/// Error code of [`LbfgsError::InvalidLineSearch`].
pub const LBFGSERR_INVALID_LINESEARCH: i32 = -1014;
/// Error code of [`LbfgsError::InvalidMinStep`].
pub const LBFGSERR_INVALID_MINSTEP: i32 = -1013;
/// Error code of [`LbfgsError::InvalidMaxStep`].
pub const LBFGSERR_INVALID_MAXSTEP: i32 = -1012;
/// Error code of [`LbfgsError::InvalidFtol`].
pub const LBFGSERR_INVALID_FTOL: i32 = -1011;
/// Error code of [`LbfgsError::InvalidWolfe`].
pub const LBFGSERR_INVALID_WOLFE: i32 = -1010;
/// Error code of [`LbfgsError::InvalidGtol`].
pub const LBFGSERR_INVALID_GTOL: i32 = -1009;
/// Error code of [`LbfgsError::InvalidXtol`].
pub const LBFGSERR_INVALID_XTOL: i32 = -1008;
/// Error code of [`LbfgsError::InvalidMaxLineSearch`].
pub const LBFGSERR_INVALID_MAXLINESEARCH: i32 = -1007;
/// Error code of [`LbfgsError::InvalidOrthantwise`].
pub const LBFGSERR_INVALID_ORTHANTWISE: i32 = -1006;
/// Error code of [`LbfgsError::InvalidOrthantwiseStart`].
pub const LBFGSERR_INVALID_ORTHANTWISE_START: i32 = -1005;
/// Error code of [`LbfgsError::InvalidOrthantwiseEnd`].
pub const LBFGSERR_INVALID_ORTHANTWISE_END: i32 = -1004;
/// Error code of [`LbfgsError::OutOfInterval`].
pub const LBFGSERR_OUTOFINTERVAL: i32 = -1003;
/// Error code of [`LbfgsError::IncorrectTMinMax`].
pub const LBFGSERR_INCORRECT_TMINMAX: i32 = -1002;
/// Error code of [`LbfgsError::RoundingError`].
pub const LBFGSERR_ROUNDING_ERROR: i32 = -1001;
/// Error code of [`LbfgsError::MinimumStep`].
pub const LBFGSERR_MINIMUMSTEP: i32 = -1000;
/// Error code of [`LbfgsError::MaximumStep`].
pub const LBFGSERR_MAXIMUMSTEP: i32 = -999;
/// Error code of [`LbfgsError::MaximumLineSearch`].
pub const LBFGSERR_MAXIMUMLINESEARCH: i32 = -998;
/// Error code of [`LbfgsError::MaximumIteration`].
pub const LBFGSERR_MAXIMUMITERATION: i32 = -997;
/// Error code of [`LbfgsError::WidthTooSmall`].
pub const LBFGSERR_WIDTHTOOSMALL: i32 = -996;
/// Error code of [`LbfgsError::InvalidParameters`].
pub const LBFGSERR_INVALIDPARAMETERS: i32 = -995;
/// Error code of [`LbfgsError::IncreaseGradient`].
pub const LBFGSERR_INCREASEGRADIENT: i32 = -994;

/// Convergence status of a successful optimization.
#[derive(Debug, Copy, Clone, PartialEq, Eq, Structural)]
pub enum Convergence {
    /// Gradient norm convergence: `||g|| / max(1, ||x||) <= epsilon`.
    Gradient,
    /// Delta-based convergence: the relative improvement fell below `delta`.
    Delta,
    /// The initial variables already minimize the objective function.
    AlreadyMinimized,
}

impl Convergence {
    /// The status code of this outcome.
    pub open spec fn spec_code(self) -> int {
        match self {
            Convergence::Gradient => 0,
            Convergence::Delta => 1,
            Convergence::AlreadyMinimized => 2,
        }
    }

    /// Returns the status code of this outcome.
    pub fn code(&self) -> (r: i32)
        ensures
            r == self.spec_code(),
    {
        match self {
            Convergence::Gradient => LBFGS_SUCCESS,
            Convergence::Delta => LBFGS_STOP,
            Convergence::AlreadyMinimized => LBFGS_ALREADY_MINIMIZED,
        }
    }
}

/// Error codes of the optimizer.
#[derive(Debug, Copy, Clone, PartialEq, Eq, Structural)]
pub enum LbfgsError {
    /// Unknown error.
    UnknownError,
    /// Logic error.
    LogicError,
    /// Insufficient memory.
    OutOfMemory,
    /// The minimization process has been canceled.
    Canceled,
    /// Invalid number of variables specified.
    InvalidN,
    /// Invalid epsilon.
    InvalidEpsilon,
    /// Invalid past.
    InvalidTestPeriod,
    /// Invalid delta.
    InvalidDelta,
    /// Invalid linesearch.
    InvalidLineSearch,
    /// Invalid min_step.
    InvalidMinStep,
    /// Invalid max_step.
    InvalidMaxStep,
    /// Invalid ftol.
    InvalidFtol,
    /// Invalid wolfe.
    InvalidWolfe,
    /// Invalid gtol.
    InvalidGtol,
    /// Invalid xtol.
    InvalidXtol,
    /// Invalid max_linesearch.
    InvalidMaxLineSearch,
    /// Invalid orthantwise_c.
    InvalidOrthantwise,
    /// Invalid orthantwise_start.
    InvalidOrthantwiseStart,
    /// Invalid orthantwise_end.
    InvalidOrthantwiseEnd,
    /// Line-search step out of interval.
    OutOfInterval,
    /// Interval of uncertainty became too small.
    IncorrectTMinMax,
    /// Rounding error in line search.
    RoundingError,
    /// Line-search step became smaller than min_step.
    MinimumStep,
    /// Line-search step became larger than max_step.
    MaximumStep,
    /// Line-search reached maximum evaluations.
    MaximumLineSearch,
    /// Reached maximum number of iterations.
    MaximumIteration,
    /// Interval of uncertainty width at most xtol.
    WidthTooSmall,
    /// Negative line-search step.
    InvalidParameters,
    /// Search direction increases the objective function.
    IncreaseGradient,
}

impl LbfgsError {
    /// The (negative) status code of this error.
    pub open spec fn spec_code(self) -> int {
        match self {
            LbfgsError::UnknownError => -1024,
            LbfgsError::LogicError => -1023,
            LbfgsError::OutOfMemory => -1022,
            LbfgsError::Canceled => -1021,
            LbfgsError::InvalidN => -1020,
            LbfgsError::InvalidEpsilon => -1017,
            LbfgsError::InvalidTestPeriod => -1016,
            LbfgsError::InvalidDelta => -1015,
            LbfgsError::InvalidLineSearch => -1014,
            LbfgsError::InvalidMinStep => -1013,
            LbfgsError::InvalidMaxStep => -1012,
            LbfgsError::InvalidFtol => -1011,
            LbfgsError::InvalidWolfe => -1010,
            LbfgsError::InvalidGtol => -1009,
            LbfgsError::InvalidXtol => -1008,
            LbfgsError::InvalidMaxLineSearch => -1007,
            LbfgsError::InvalidOrthantwise => -1006,
            LbfgsError::InvalidOrthantwiseStart => -1005,
            LbfgsError::InvalidOrthantwiseEnd => -1004,
            LbfgsError::OutOfInterval => -1003,
            LbfgsError::IncorrectTMinMax => -1002,
            LbfgsError::RoundingError => -1001,
            LbfgsError::MinimumStep => -1000,
            LbfgsError::MaximumStep => -999,
            LbfgsError::MaximumLineSearch => -998,
            LbfgsError::MaximumIteration => -997,
            LbfgsError::WidthTooSmall => -996,
            LbfgsError::InvalidParameters => -995,
            LbfgsError::IncreaseGradient => -994,
        }
    }

    /// The human-readable description of this error.
    pub open spec fn spec_message(self) -> Seq<char> {
        match self {
            LbfgsError::UnknownError => "Unknown error"@,
            LbfgsError::LogicError => "Logic error"@,
            LbfgsError::OutOfMemory => "Insufficient memory"@,
            LbfgsError::Canceled => "The minimization process has been canceled"@,
            LbfgsError::InvalidN => "Invalid number of variables specified"@,
            LbfgsError::InvalidEpsilon => "Invalid epsilon"@,
            LbfgsError::InvalidTestPeriod => "Invalid past"@,
            LbfgsError::InvalidDelta => "Invalid delta"@,
            LbfgsError::InvalidLineSearch => "Invalid linesearch"@,
            LbfgsError::InvalidMinStep => "Invalid min_step"@,
            LbfgsError::InvalidMaxStep => "Invalid max_step"@,
            LbfgsError::InvalidFtol => "Invalid ftol"@,
            LbfgsError::InvalidWolfe => "Invalid wolfe"@,
            LbfgsError::InvalidGtol => "Invalid gtol"@,
            LbfgsError::InvalidXtol => "Invalid xtol"@,
            LbfgsError::InvalidMaxLineSearch => "Invalid max_linesearch"@,
            LbfgsError::InvalidOrthantwise => "Invalid orthantwise_c"@,
            LbfgsError::InvalidOrthantwiseStart => "Invalid orthantwise_start"@,
            LbfgsError::InvalidOrthantwiseEnd => "Invalid orthantwise_end"@,
            LbfgsError::OutOfInterval => "Line-search step out of interval"@,
            LbfgsError::IncorrectTMinMax => "Interval of uncertainty became too small"@,
            LbfgsError::RoundingError => "Rounding error in line search"@,
            LbfgsError::MinimumStep => "Line-search step became smaller than min_step"@,
            LbfgsError::MaximumStep => "Line-search step became larger than max_step"@,
            LbfgsError::MaximumLineSearch => "Line-search reached maximum evaluations"@,
            LbfgsError::MaximumIteration => "Reached maximum number of iterations"@,
            LbfgsError::WidthTooSmall => "Interval of uncertainty width at most xtol"@,
            LbfgsError::InvalidParameters => "Negative line-search step"@,
            LbfgsError::IncreaseGradient => "Search direction increases the objective function"@,
        }
    }

    /// Returns the status code of this error.
    pub fn code(&self) -> (r: i32)
        ensures
            r == self.spec_code(),
    {
        match self {
            LbfgsError::UnknownError => LBFGSERR_UNKNOWNERROR,
            LbfgsError::LogicError => LBFGSERR_LOGICERROR,
            LbfgsError::OutOfMemory => LBFGSERR_OUTOFMEMORY,
            LbfgsError::Canceled => LBFGSERR_CANCELED,
            LbfgsError::InvalidN => LBFGSERR_INVALID_N,
            LbfgsError::InvalidEpsilon => LBFGSERR_INVALID_EPSILON,
            LbfgsError::InvalidTestPeriod => LBFGSERR_INVALID_TESTPERIOD,
            LbfgsError::InvalidDelta => LBFGSERR_INVALID_DELTA,
            LbfgsError::InvalidLineSearch => LBFGSERR_INVALID_LINESEARCH,
            LbfgsError::InvalidMinStep => LBFGSERR_INVALID_MINSTEP,
            LbfgsError::InvalidMaxStep => LBFGSERR_INVALID_MAXSTEP,
            LbfgsError::InvalidFtol => LBFGSERR_INVALID_FTOL,
            LbfgsError::InvalidWolfe => LBFGSERR_INVALID_WOLFE,
            LbfgsError::InvalidGtol => LBFGSERR_INVALID_GTOL,
            LbfgsError::InvalidXtol => LBFGSERR_INVALID_XTOL,
            LbfgsError::InvalidMaxLineSearch => LBFGSERR_INVALID_MAXLINESEARCH,
            LbfgsError::InvalidOrthantwise => LBFGSERR_INVALID_ORTHANTWISE,
            LbfgsError::InvalidOrthantwiseStart => LBFGSERR_INVALID_ORTHANTWISE_START,
            LbfgsError::InvalidOrthantwiseEnd => LBFGSERR_INVALID_ORTHANTWISE_END,
            LbfgsError::OutOfInterval => LBFGSERR_OUTOFINTERVAL,
            LbfgsError::IncorrectTMinMax => LBFGSERR_INCORRECT_TMINMAX,
            LbfgsError::RoundingError => LBFGSERR_ROUNDING_ERROR,
            LbfgsError::MinimumStep => LBFGSERR_MINIMUMSTEP,
            LbfgsError::MaximumStep => LBFGSERR_MAXIMUMSTEP,
            LbfgsError::MaximumLineSearch => LBFGSERR_MAXIMUMLINESEARCH,
            LbfgsError::MaximumIteration => LBFGSERR_MAXIMUMITERATION,
            LbfgsError::WidthTooSmall => LBFGSERR_WIDTHTOOSMALL,
            LbfgsError::InvalidParameters => LBFGSERR_INVALIDPARAMETERS,
            LbfgsError::IncreaseGradient => LBFGSERR_INCREASEGRADIENT,
        }
    }

    /// Returns the human-readable description of this error.
    pub fn message(&self) -> (r: &'static str)
        ensures
            r@ == self.spec_message(),
    {
        match self {
            LbfgsError::UnknownError => "Unknown error",
            LbfgsError::LogicError => "Logic error",
            LbfgsError::OutOfMemory => "Insufficient memory",
            LbfgsError::Canceled => "The minimization process has been canceled",
            LbfgsError::InvalidN => "Invalid number of variables specified",
            LbfgsError::InvalidEpsilon => "Invalid epsilon",
            LbfgsError::InvalidTestPeriod => "Invalid past",
            LbfgsError::InvalidDelta => "Invalid delta",
            LbfgsError::InvalidLineSearch => "Invalid linesearch",
            LbfgsError::InvalidMinStep => "Invalid min_step",
            LbfgsError::InvalidMaxStep => "Invalid max_step",
            LbfgsError::InvalidFtol => "Invalid ftol",
            LbfgsError::InvalidWolfe => "Invalid wolfe",
            LbfgsError::InvalidGtol => "Invalid gtol",
            LbfgsError::InvalidXtol => "Invalid xtol",
            LbfgsError::InvalidMaxLineSearch => "Invalid max_linesearch",
            LbfgsError::InvalidOrthantwise => "Invalid orthantwise_c",
            LbfgsError::InvalidOrthantwiseStart => "Invalid orthantwise_start",
            LbfgsError::InvalidOrthantwiseEnd => "Invalid orthantwise_end",
            LbfgsError::OutOfInterval => "Line-search step out of interval",
            LbfgsError::IncorrectTMinMax => "Interval of uncertainty became too small",
            LbfgsError::RoundingError => "Rounding error in line search",
            LbfgsError::MinimumStep => "Line-search step became smaller than min_step",
            LbfgsError::MaximumStep => "Line-search step became larger than max_step",
            LbfgsError::MaximumLineSearch => "Line-search reached maximum evaluations",
            LbfgsError::MaximumIteration => "Reached maximum number of iterations",
            LbfgsError::WidthTooSmall => "Interval of uncertainty width at most xtol",
            LbfgsError::InvalidParameters => "Negative line-search step",
            LbfgsError::IncreaseGradient => "Search direction increases the objective function",
        }
    }
}


/// Whether `c` is the status code of some error.
pub open spec fn is_error_code(c: int) -> bool {
    exists|e: LbfgsError| e.spec_code() == c
}

/// The outcome that a status code stands for: the three success codes give
/// their convergence kinds, an error code gives its error, and any other code
/// is read as a cancellation.
pub open spec fn status_of_code(c: int) -> Result<Convergence, LbfgsError> {
    if c == 0 {
        Ok(Convergence::Gradient)
    } else if c == 1 {
        Ok(Convergence::Delta)
    } else if c == 2 {
        Ok(Convergence::AlreadyMinimized)
    } else if is_error_code(c) {
        Err(choose|e: LbfgsError| e.spec_code() == c)
    } else {
        Err(LbfgsError::Canceled)
    }
}

/// Two errors with the same code are the same error.
pub proof fn lemma_error_code_injective(a: LbfgsError, b: LbfgsError)
    ensures
        a.spec_code() == b.spec_code() <==> a == b,
{
}

/// Every error is reported through a negative code, distinct from the
/// non-negative success codes, and reading an error's code gives the error back.
pub proof fn lemma_error_code_roundtrip(e: LbfgsError)
    ensures
        e.spec_code() < 0,
        status_of_code(e.spec_code()) == Err::<Convergence, LbfgsError>(e),
{
    assert(is_error_code(e.spec_code()));
    let f = choose|f: LbfgsError| f.spec_code() == e.spec_code();
    lemma_error_code_injective(e, f);
}

/// Reading a convergence kind's code gives the convergence kind back.
pub proof fn lemma_convergence_code_roundtrip(c: Convergence)
    ensures
        0 <= c.spec_code() <= 2,
        status_of_code(c.spec_code()) == Ok::<Convergence, LbfgsError>(c),
{
}

/// Each error carries its documented code (the `LBFGSERR_*` constant of its
/// name), and that code reads back as the error.
pub proof fn lemma_documented_error_codes()
    ensures
        LbfgsError::UnknownError.spec_code() == LBFGSERR_UNKNOWNERROR,
        LbfgsError::LogicError.spec_code() == LBFGSERR_LOGICERROR,
        LbfgsError::OutOfMemory.spec_code() == LBFGSERR_OUTOFMEMORY,
        LbfgsError::Canceled.spec_code() == LBFGSERR_CANCELED,
        LbfgsError::InvalidN.spec_code() == LBFGSERR_INVALID_N,
        LbfgsError::InvalidEpsilon.spec_code() == LBFGSERR_INVALID_EPSILON,
        LbfgsError::InvalidTestPeriod.spec_code() == LBFGSERR_INVALID_TESTPERIOD,
        LbfgsError::InvalidDelta.spec_code() == LBFGSERR_INVALID_DELTA,
        LbfgsError::InvalidLineSearch.spec_code() == LBFGSERR_INVALID_LINESEARCH,
        LbfgsError::InvalidMinStep.spec_code() == LBFGSERR_INVALID_MINSTEP,
        LbfgsError::InvalidMaxStep.spec_code() == LBFGSERR_INVALID_MAXSTEP,
        LbfgsError::InvalidFtol.spec_code() == LBFGSERR_INVALID_FTOL,
        LbfgsError::InvalidWolfe.spec_code() == LBFGSERR_INVALID_WOLFE,
        LbfgsError::InvalidGtol.spec_code() == LBFGSERR_INVALID_GTOL,
        LbfgsError::InvalidXtol.spec_code() == LBFGSERR_INVALID_XTOL,
        LbfgsError::InvalidMaxLineSearch.spec_code() == LBFGSERR_INVALID_MAXLINESEARCH,
        LbfgsError::InvalidOrthantwise.spec_code() == LBFGSERR_INVALID_ORTHANTWISE,
        LbfgsError::InvalidOrthantwiseStart.spec_code() == LBFGSERR_INVALID_ORTHANTWISE_START,
        LbfgsError::InvalidOrthantwiseEnd.spec_code() == LBFGSERR_INVALID_ORTHANTWISE_END,
        LbfgsError::OutOfInterval.spec_code() == LBFGSERR_OUTOFINTERVAL,
        LbfgsError::IncorrectTMinMax.spec_code() == LBFGSERR_INCORRECT_TMINMAX,
        LbfgsError::RoundingError.spec_code() == LBFGSERR_ROUNDING_ERROR,
        LbfgsError::MinimumStep.spec_code() == LBFGSERR_MINIMUMSTEP,
        LbfgsError::MaximumStep.spec_code() == LBFGSERR_MAXIMUMSTEP,
        LbfgsError::MaximumLineSearch.spec_code() == LBFGSERR_MAXIMUMLINESEARCH,
        LbfgsError::MaximumIteration.spec_code() == LBFGSERR_MAXIMUMITERATION,
        LbfgsError::WidthTooSmall.spec_code() == LBFGSERR_WIDTHTOOSMALL,
        LbfgsError::InvalidParameters.spec_code() == LBFGSERR_INVALIDPARAMETERS,
        LbfgsError::IncreaseGradient.spec_code() == LBFGSERR_INCREASEGRADIENT,
        status_of_code(LBFGSERR_UNKNOWNERROR as int) == Err::<Convergence, LbfgsError>(LbfgsError::UnknownError),
        status_of_code(LBFGSERR_LOGICERROR as int) == Err::<Convergence, LbfgsError>(LbfgsError::LogicError),
        status_of_code(LBFGSERR_OUTOFMEMORY as int) == Err::<Convergence, LbfgsError>(LbfgsError::OutOfMemory),
        status_of_code(LBFGSERR_CANCELED as int) == Err::<Convergence, LbfgsError>(LbfgsError::Canceled),
        status_of_code(LBFGSERR_INVALID_N as int) == Err::<Convergence, LbfgsError>(LbfgsError::InvalidN),
        status_of_code(LBFGSERR_INVALID_EPSILON as int) == Err::<Convergence, LbfgsError>(LbfgsError::InvalidEpsilon),
        status_of_code(LBFGSERR_INVALID_TESTPERIOD as int) == Err::<Convergence, LbfgsError>(LbfgsError::InvalidTestPeriod),
        status_of_code(LBFGSERR_INVALID_DELTA as int) == Err::<Convergence, LbfgsError>(LbfgsError::InvalidDelta),
        status_of_code(LBFGSERR_INVALID_LINESEARCH as int) == Err::<Convergence, LbfgsError>(LbfgsError::InvalidLineSearch),
        status_of_code(LBFGSERR_INVALID_MINSTEP as int) == Err::<Convergence, LbfgsError>(LbfgsError::InvalidMinStep),
        status_of_code(LBFGSERR_INVALID_MAXSTEP as int) == Err::<Convergence, LbfgsError>(LbfgsError::InvalidMaxStep),
        status_of_code(LBFGSERR_INVALID_FTOL as int) == Err::<Convergence, LbfgsError>(LbfgsError::InvalidFtol),
        status_of_code(LBFGSERR_INVALID_WOLFE as int) == Err::<Convergence, LbfgsError>(LbfgsError::InvalidWolfe),
        status_of_code(LBFGSERR_INVALID_GTOL as int) == Err::<Convergence, LbfgsError>(LbfgsError::InvalidGtol),
        status_of_code(LBFGSERR_INVALID_XTOL as int) == Err::<Convergence, LbfgsError>(LbfgsError::InvalidXtol),
        status_of_code(LBFGSERR_INVALID_MAXLINESEARCH as int) == Err::<Convergence, LbfgsError>(LbfgsError::InvalidMaxLineSearch),
        status_of_code(LBFGSERR_INVALID_ORTHANTWISE as int) == Err::<Convergence, LbfgsError>(LbfgsError::InvalidOrthantwise),
        status_of_code(LBFGSERR_INVALID_ORTHANTWISE_START as int) == Err::<Convergence, LbfgsError>(LbfgsError::InvalidOrthantwiseStart),
        status_of_code(LBFGSERR_INVALID_ORTHANTWISE_END as int) == Err::<Convergence, LbfgsError>(LbfgsError::InvalidOrthantwiseEnd),
        status_of_code(LBFGSERR_OUTOFINTERVAL as int) == Err::<Convergence, LbfgsError>(LbfgsError::OutOfInterval),
        status_of_code(LBFGSERR_INCORRECT_TMINMAX as int) == Err::<Convergence, LbfgsError>(LbfgsError::IncorrectTMinMax),
        status_of_code(LBFGSERR_ROUNDING_ERROR as int) == Err::<Convergence, LbfgsError>(LbfgsError::RoundingError),
        status_of_code(LBFGSERR_MINIMUMSTEP as int) == Err::<Convergence, LbfgsError>(LbfgsError::MinimumStep),
        status_of_code(LBFGSERR_MAXIMUMSTEP as int) == Err::<Convergence, LbfgsError>(LbfgsError::MaximumStep),
        status_of_code(LBFGSERR_MAXIMUMLINESEARCH as int) == Err::<Convergence, LbfgsError>(LbfgsError::MaximumLineSearch),
        status_of_code(LBFGSERR_MAXIMUMITERATION as int) == Err::<Convergence, LbfgsError>(LbfgsError::MaximumIteration),
        status_of_code(LBFGSERR_WIDTHTOOSMALL as int) == Err::<Convergence, LbfgsError>(LbfgsError::WidthTooSmall),
        status_of_code(LBFGSERR_INVALIDPARAMETERS as int) == Err::<Convergence, LbfgsError>(LbfgsError::InvalidParameters),
        status_of_code(LBFGSERR_INCREASEGRADIENT as int) == Err::<Convergence, LbfgsError>(LbfgsError::IncreaseGradient),
{
    lemma_error_code_roundtrip(LbfgsError::UnknownError);
    lemma_error_code_roundtrip(LbfgsError::LogicError);
    lemma_error_code_roundtrip(LbfgsError::OutOfMemory);
    lemma_error_code_roundtrip(LbfgsError::Canceled);
    lemma_error_code_roundtrip(LbfgsError::InvalidN);
    lemma_error_code_roundtrip(LbfgsError::InvalidEpsilon);
    lemma_error_code_roundtrip(LbfgsError::InvalidTestPeriod);
    lemma_error_code_roundtrip(LbfgsError::InvalidDelta);
    lemma_error_code_roundtrip(LbfgsError::InvalidLineSearch);
    lemma_error_code_roundtrip(LbfgsError::InvalidMinStep);
    lemma_error_code_roundtrip(LbfgsError::InvalidMaxStep);
    lemma_error_code_roundtrip(LbfgsError::InvalidFtol);
    lemma_error_code_roundtrip(LbfgsError::InvalidWolfe);
    lemma_error_code_roundtrip(LbfgsError::InvalidGtol);
    lemma_error_code_roundtrip(LbfgsError::InvalidXtol);
    lemma_error_code_roundtrip(LbfgsError::InvalidMaxLineSearch);
    lemma_error_code_roundtrip(LbfgsError::InvalidOrthantwise);
    lemma_error_code_roundtrip(LbfgsError::InvalidOrthantwiseStart);
    lemma_error_code_roundtrip(LbfgsError::InvalidOrthantwiseEnd);
    lemma_error_code_roundtrip(LbfgsError::OutOfInterval);
    lemma_error_code_roundtrip(LbfgsError::IncorrectTMinMax);
    lemma_error_code_roundtrip(LbfgsError::RoundingError);
    lemma_error_code_roundtrip(LbfgsError::MinimumStep);
    lemma_error_code_roundtrip(LbfgsError::MaximumStep);
    lemma_error_code_roundtrip(LbfgsError::MaximumLineSearch);
    lemma_error_code_roundtrip(LbfgsError::MaximumIteration);
    lemma_error_code_roundtrip(LbfgsError::WidthTooSmall);
    lemma_error_code_roundtrip(LbfgsError::InvalidParameters);
    lemma_error_code_roundtrip(LbfgsError::IncreaseGradient);
}

/// Each convergence kind carries its documented code, and that code reads
/// back as the kind; each line-search algorithm carries its documented code.
pub proof fn lemma_documented_success_codes()
    ensures
        Convergence::Gradient.spec_code() == LBFGS_SUCCESS,
        Convergence::Delta.spec_code() == LBFGS_STOP,
        Convergence::AlreadyMinimized.spec_code() == LBFGS_ALREADY_MINIMIZED,
        status_of_code(LBFGS_SUCCESS as int) == Ok::<Convergence, LbfgsError>(Convergence::Gradient),
        status_of_code(LBFGS_STOP as int) == Ok::<Convergence, LbfgsError>(Convergence::Delta),
        status_of_code(LBFGS_ALREADY_MINIMIZED as int) == Ok::<Convergence, LbfgsError>(Convergence::AlreadyMinimized),
        LineSearch::MoreThuente.spec_code() == LBFGS_LINESEARCH_MORETHUENTE,
        LineSearch::BacktrackingArmijo.spec_code() == LBFGS_LINESEARCH_BACKTRACKING_ARMIJO,
        LineSearch::BacktrackingWolfe.spec_code() == LBFGS_LINESEARCH_BACKTRACKING_WOLFE,
        LineSearch::BacktrackingStrongWolfe.spec_code() == LBFGS_LINESEARCH_BACKTRACKING_STRONG_WOLFE,
{
}

/// Converts an internal status code into the outcome it stands for.
pub fn code_to_status(code: i32) -> (r: Result<Convergence, LbfgsError>)
    ensures
        r == status_of_code(code as int),
{
    let r = match code {
        0 => Ok(Convergence::Gradient),
        1 => Ok(Convergence::Delta),
        2 => Ok(Convergence::AlreadyMinimized),
        -1024 => Err(LbfgsError::UnknownError),
        -1023 => Err(LbfgsError::LogicError),
        -1022 => Err(LbfgsError::OutOfMemory),
        -1021 => Err(LbfgsError::Canceled),
        -1020 => Err(LbfgsError::InvalidN),
        -1017 => Err(LbfgsError::InvalidEpsilon),
        -1016 => Err(LbfgsError::InvalidTestPeriod),
        -1015 => Err(LbfgsError::InvalidDelta),
        -1014 => Err(LbfgsError::InvalidLineSearch),
        -1013 => Err(LbfgsError::InvalidMinStep),
        -1012 => Err(LbfgsError::InvalidMaxStep),
        -1011 => Err(LbfgsError::InvalidFtol),
        -1010 => Err(LbfgsError::InvalidWolfe),
        -1009 => Err(LbfgsError::InvalidGtol),
        -1008 => Err(LbfgsError::InvalidXtol),
        -1007 => Err(LbfgsError::InvalidMaxLineSearch),
        -1006 => Err(LbfgsError::InvalidOrthantwise),
        -1005 => Err(LbfgsError::InvalidOrthantwiseStart),
        -1004 => Err(LbfgsError::InvalidOrthantwiseEnd),
        -1003 => Err(LbfgsError::OutOfInterval),
        -1002 => Err(LbfgsError::IncorrectTMinMax),
        -1001 => Err(LbfgsError::RoundingError),
        -1000 => Err(LbfgsError::MinimumStep),
        -999 => Err(LbfgsError::MaximumStep),
        -998 => Err(LbfgsError::MaximumLineSearch),
        -997 => Err(LbfgsError::MaximumIteration),
        -996 => Err(LbfgsError::WidthTooSmall),
        -995 => Err(LbfgsError::InvalidParameters),
        -994 => Err(LbfgsError::IncreaseGradient),
        _ => Err(LbfgsError::Canceled),
    };
    proof {
        if let Err(f) = r {
            if f.spec_code() == code as int {
                assert(is_error_code(code as int));
                let e = choose|e: LbfgsError| e.spec_code() == code as int;
                lemma_error_code_injective(e, f);
            } else {
                assert forall|e: LbfgsError| e.spec_code() != code as int by {}
            }
        }
    }
    r
}

} // verus!
