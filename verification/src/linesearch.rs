//! Decision rules of the line searches.
//!
//! A line search alternates floating-point work (evaluating the objective,
//! interpolating trial steps), done by the caller, with decisions, made here:
//! the caller hands over the outcomes of its comparisons and receives what to
//! do next. Each boolean field is named after the comparison it records.

use vstd::prelude::*;
use crate::status::{
    LbfgsError, LBFGS_LINESEARCH_BACKTRACKING_ARMIJO, LBFGS_LINESEARCH_BACKTRACKING_WOLFE,
};

verus! {

/// The checks made before the first trial of a line search: a step that is
/// not positive is refused first, then a direction along which the objective
/// increases.
pub fn search_start(step_not_positive: bool, ascent: bool) -> (r: Option<LbfgsError>)
    ensures
        r == (if step_not_positive {
            Some(LbfgsError::InvalidParameters)
        } else if ascent {
            Some(LbfgsError::IncreaseGradient)
        } else {
            None::<LbfgsError>
        }),
{
    if step_not_positive {
        Some(LbfgsError::InvalidParameters)
    } else if ascent {
        Some(LbfgsError::IncreaseGradient)
    } else {
        None
    }
}

/// What a backtracking search does after a trial.
#[derive(Debug, Copy, Clone, PartialEq, Eq, Structural)]
pub enum TrialStep {
    /// The trial step satisfies the requested condition: the search ends.
    Accept,
    /// Try again with a smaller step (times 0.5).
    Shrink,
    /// Try again with a larger step (times 2.1).
    Grow,
}

/// Outcomes of the comparisons made after a backtracking trial.
#[derive(Debug, Copy, Clone, PartialEq, Eq, Structural)]
pub struct BacktrackingTests {
    /// `f > finit + step * ftol * dginit`: the sufficient decrease test fails.
    pub above_armijo: bool,
    /// `dg < wolfe * dginit`: the curvature test fails.
    pub dg_below_wolfe: bool,
    /// `dg > -wolfe * dginit`: the strong curvature test fails.
    pub dg_above_strong: bool,
    /// `step < min_step`.
    pub step_below_min: bool,
    /// `step > max_step`.
    pub step_above_max: bool,
}

/// Which way a backtracking trial points, before the bounds are checked.
pub open spec fn backtracking_direction(kind: i32, t: BacktrackingTests) -> TrialStep {
    if t.above_armijo {
        TrialStep::Shrink
    } else if kind == LBFGS_LINESEARCH_BACKTRACKING_ARMIJO {
        TrialStep::Accept
    } else if t.dg_below_wolfe {
        TrialStep::Grow
    } else if kind == LBFGS_LINESEARCH_BACKTRACKING_WOLFE {
        TrialStep::Accept
    } else if t.dg_above_strong {
        TrialStep::Shrink
    } else {
        TrialStep::Accept
    }
}

/// The outcome of a backtracking trial, the `count`-th evaluation of the search.
pub open spec fn backtracking_outcome(
    kind: i32,
    count: i32,
    max_linesearch: i32,
    t: BacktrackingTests,
) -> Result<TrialStep, LbfgsError> {
    let d = backtracking_direction(kind, t);
    if d == TrialStep::Accept {
        Ok(TrialStep::Accept)
    } else if t.step_below_min {
        Err(LbfgsError::MinimumStep)
    } else if t.step_above_max {
        Err(LbfgsError::MaximumStep)
    } else if max_linesearch <= count {
        Err(LbfgsError::MaximumLineSearch)
    } else {
        Ok(d)
    }
}

/// The backtracking rules, stated check by check: a trial is accepted exactly
/// when it meets the condition of its kind (Armijo: sufficient decrease; Wolfe:
/// also curvature; any other kind: also strong curvature); a trial above the
/// Armijo line never grows the step, and shrinks it unless a bound stops the
/// search; the step grows only for a sufficient decrease with a slope still too
/// steep; and an error names a bound that was hit, in the order min step, max
/// step, evaluations.
pub proof fn lemma_backtracking_rules(kind: i32, count: i32, max_linesearch: i32, t: BacktrackingTests)
    ensures
        (backtracking_outcome(kind, count, max_linesearch, t) == Ok::<TrialStep, LbfgsError>(TrialStep::Accept))
            <==> (!t.above_armijo && (kind == 1 || (!t.dg_below_wolfe && (kind == 2 || !t.dg_above_strong)))),
        t.above_armijo ==> backtracking_outcome(kind, count, max_linesearch, t) != Ok::<TrialStep, LbfgsError>(TrialStep::Grow),
        t.above_armijo && !t.step_below_min && !t.step_above_max && count < max_linesearch
            ==> backtracking_outcome(kind, count, max_linesearch, t) == Ok::<TrialStep, LbfgsError>(TrialStep::Shrink),
        (backtracking_outcome(kind, count, max_linesearch, t) == Ok::<TrialStep, LbfgsError>(TrialStep::Grow))
            <==> (!t.above_armijo && kind != 1 && t.dg_below_wolfe && !t.step_below_min
                && !t.step_above_max && count < max_linesearch),
        (backtracking_outcome(kind, count, max_linesearch, t) == Ok::<TrialStep, LbfgsError>(TrialStep::Shrink))
            <==> ((t.above_armijo || (kind != 1 && kind != 2 && !t.dg_below_wolfe && t.dg_above_strong))
                && !t.step_below_min && !t.step_above_max && count < max_linesearch),
        (backtracking_outcome(kind, count, max_linesearch, t) == Err::<TrialStep, LbfgsError>(LbfgsError::MinimumStep))
            ==> t.step_below_min,
        (backtracking_outcome(kind, count, max_linesearch, t) == Err::<TrialStep, LbfgsError>(LbfgsError::MaximumStep))
            ==> !t.step_below_min && t.step_above_max,
        (backtracking_outcome(kind, count, max_linesearch, t) == Err::<TrialStep, LbfgsError>(LbfgsError::MaximumLineSearch))
            ==> !t.step_below_min && !t.step_above_max && max_linesearch <= count,
        backtracking_outcome(kind, count, max_linesearch, t) matches Err(e)
            ==> e == LbfgsError::MinimumStep || e == LbfgsError::MaximumStep || e == LbfgsError::MaximumLineSearch,
{
}

/// Decides what a backtracking search of kind `kind` (a line-search code)
/// does after its `count`-th evaluation.
/// The Armijo search accepts a step of sufficient decrease; the Wolfe search
/// also asks for the curvature condition; the strong Wolfe search (every other
/// kind) also for the strong curvature condition. The search of the OWL-QN
/// method decides as the Armijo search.
pub fn backtracking_next(kind: i32, count: i32, max_linesearch: i32, t: &BacktrackingTests) -> (r: Result<TrialStep, LbfgsError>)
    ensures
        r == backtracking_outcome(kind, count, max_linesearch, *t),
        r == Ok::<TrialStep, LbfgsError>(TrialStep::Accept) ==> {
            &&& !t.above_armijo
            &&& kind != LBFGS_LINESEARCH_BACKTRACKING_ARMIJO ==> !t.dg_below_wolfe
            &&& (kind != LBFGS_LINESEARCH_BACKTRACKING_ARMIJO && kind != LBFGS_LINESEARCH_BACKTRACKING_WOLFE) ==> !t.dg_above_strong
        },
        r matches Ok(s) && s != TrialStep::Accept ==> count < max_linesearch,
        t.above_armijo && !t.step_below_min && !t.step_above_max && count < max_linesearch
            ==> r == Ok::<TrialStep, LbfgsError>(TrialStep::Shrink),
        r == Ok::<TrialStep, LbfgsError>(TrialStep::Grow) ==> !t.above_armijo && t.dg_below_wolfe,
{
    proof { lemma_backtracking_rules(kind, count, max_linesearch, *t); }
    let d = if t.above_armijo {
        TrialStep::Shrink
    } else if kind == LBFGS_LINESEARCH_BACKTRACKING_ARMIJO {
        TrialStep::Accept
    } else if t.dg_below_wolfe {
        TrialStep::Grow
    } else if kind == LBFGS_LINESEARCH_BACKTRACKING_WOLFE {
        TrialStep::Accept
    } else if t.dg_above_strong {
        TrialStep::Shrink
    } else {
        TrialStep::Accept
    };
    if d == TrialStep::Accept {
        return Ok(TrialStep::Accept);
    }
    if t.step_below_min {
        return Err(LbfgsError::MinimumStep);
    }
    if t.step_above_max {
        return Err(LbfgsError::MaximumStep);
    }
    if max_linesearch <= count {
        return Err(LbfgsError::MaximumLineSearch);
    }
    Ok(d)
}

/// The four cases of the safeguarded trial-step update (More and Thuente).
#[derive(Debug, Copy, Clone, PartialEq, Eq, Structural)]
pub enum TrialCase {
    /// The trial value is higher than the best value: the minimum is bracketed.
    HigherValue,
    /// Lower value, derivatives of opposite sign: the minimum is bracketed.
    OppositeSlopes,
    /// Lower value, same sign, and the derivative decreases in magnitude.
    DecreasingSlope,
    /// Lower value, same sign, and the derivative does not decrease in magnitude.
    SteepSlope,
}

/// How the endpoints `x` (best step) and `y` of the interval move.
#[derive(Debug, Copy, Clone, PartialEq, Eq, Structural)]
pub enum EndpointUpdate {
    /// `y` takes the trial step.
    ReplaceUpper,
    /// `x` takes the trial step.
    ReplaceBest,
    /// `y` takes the old `x`, and `x` takes the trial step.
    ShiftAndReplaceBest,
}

/// Outcomes of the comparisons that the trial-step update makes.
#[derive(Debug, Copy, Clone, PartialEq, Eq, Structural)]
pub struct TrialTests {
    /// `t <= min(x, y) || max(x, y) <= t`: the trial lies outside the interval.
    pub trial_outside: bool,
    /// `0 <= dx * (t - x)`: the objective does not decrease towards the trial.
    pub not_descending: bool,
    /// `tmax < tmin`.
    pub tmax_below_tmin: bool,
    /// `fx < ft`: the trial value is higher than the best value.
    pub fx_below_ft: bool,
    /// The derivatives at the trial and at the best step differ in sign.
    pub signs_differ: bool,
    /// `|dt| < |dx|`.
    pub dt_smaller: bool,
}

/// The plan of a trial-step update.
#[derive(Debug, Copy, Clone, PartialEq, Eq, Structural)]
pub struct TrialPlan {
    /// Which interpolation case applies.
    pub case: TrialCase,
    /// Whether the minimum is bracketed after the update.
    pub bracketed: bool,
    /// How the endpoints move.
    pub update: EndpointUpdate,
    /// Whether the new trial is kept within 66% of the interval.
    pub safeguard: bool,
}

/// The case that applies to the comparisons `t`.
pub open spec fn trial_case(t: TrialTests) -> TrialCase {
    if t.fx_below_ft {
        TrialCase::HigherValue
    } else if t.signs_differ {
        TrialCase::OppositeSlopes
    } else if t.dt_smaller {
        TrialCase::DecreasingSlope
    } else {
        TrialCase::SteepSlope
    }
}

/// The result of a trial-step update: with a bracketed minimum, a trial out
/// of the interval, a trial towards which the objective does not decrease, or
/// a reversed step range is refused; otherwise the case decides the rest.
pub open spec fn trial_outcome(bracketed: bool, t: TrialTests) -> Result<TrialPlan, LbfgsError> {
    if bracketed && t.trial_outside {
        Err(LbfgsError::OutOfInterval)
    } else if bracketed && t.not_descending {
        Err(LbfgsError::IncreaseGradient)
    } else if bracketed && t.tmax_below_tmin {
        Err(LbfgsError::IncorrectTMinMax)
    } else {
        let c = trial_case(t);
        let now = bracketed || c == TrialCase::HigherValue || c == TrialCase::OppositeSlopes;
        let bound = c == TrialCase::HigherValue || c == TrialCase::DecreasingSlope;
        Ok(TrialPlan {
            case: c,
            bracketed: now,
            update: if c == TrialCase::HigherValue {
                EndpointUpdate::ReplaceUpper
            } else if c == TrialCase::OppositeSlopes {
                EndpointUpdate::ShiftAndReplaceBest
            } else {
                EndpointUpdate::ReplaceBest
            },
            safeguard: now && bound,
        })
    }
}

/// The trial-step update, stated check by check: errors arise only with a
/// bracketed minimum, in the order out-of-interval, no descent, reversed range;
/// the case is read off the comparisons; the minimum becomes bracketed only by
/// a higher trial value or by derivatives of opposite sign; `y` takes the trial
/// only when the value rose, the old `x` only when the signs differ; and the
/// 66% safeguard applies with a bracketed minimum in the first and third cases.
pub proof fn lemma_trial_rules(bracketed: bool, t: TrialTests)
    ensures
        !bracketed ==> trial_outcome(bracketed, t) is Ok,
        (trial_outcome(bracketed, t) == Err::<TrialPlan, LbfgsError>(LbfgsError::OutOfInterval))
            <==> (bracketed && t.trial_outside),
        (trial_outcome(bracketed, t) == Err::<TrialPlan, LbfgsError>(LbfgsError::IncreaseGradient))
            <==> (bracketed && !t.trial_outside && t.not_descending),
        (trial_outcome(bracketed, t) == Err::<TrialPlan, LbfgsError>(LbfgsError::IncorrectTMinMax))
            <==> (bracketed && !t.trial_outside && !t.not_descending && t.tmax_below_tmin),
        trial_outcome(bracketed, t) matches Ok(p) ==> {
            &&& (p.bracketed <==> (bracketed || t.fx_below_ft || t.signs_differ))
            &&& (p.case == TrialCase::HigherValue <==> t.fx_below_ft)
            &&& (p.case == TrialCase::OppositeSlopes <==> (!t.fx_below_ft && t.signs_differ))
            &&& (p.case == TrialCase::DecreasingSlope <==> (!t.fx_below_ft && !t.signs_differ && t.dt_smaller))
            &&& (p.case == TrialCase::SteepSlope <==> (!t.fx_below_ft && !t.signs_differ && !t.dt_smaller))
            &&& (p.update == EndpointUpdate::ReplaceUpper <==> t.fx_below_ft)
            &&& (p.update == EndpointUpdate::ShiftAndReplaceBest <==> (!t.fx_below_ft && t.signs_differ))
            &&& (p.update == EndpointUpdate::ReplaceBest <==> (!t.fx_below_ft && !t.signs_differ))
            &&& (p.safeguard <==> (p.bracketed && (t.fx_below_ft || (!t.signs_differ && t.dt_smaller))))
        },
{
}

/// Plans the safeguarded update of the trial step and of the interval of
/// uncertainty. Once the minimum is bracketed it stays bracketed.
pub fn plan_trial(bracketed: bool, t: &TrialTests) -> (r: Result<TrialPlan, LbfgsError>)
    ensures
        r == trial_outcome(bracketed, *t),
        r is Err ==> bracketed,
        r matches Ok(p) ==> (bracketed ==> p.bracketed),
        r matches Ok(p) ==> (p.update == EndpointUpdate::ReplaceUpper <==> t.fx_below_ft),
        r matches Ok(p) ==> (p.bracketed <==> (bracketed || t.fx_below_ft || t.signs_differ)),
        r matches Ok(p) ==> (p.safeguard <==> (p.bracketed && (t.fx_below_ft || (!t.signs_differ && t.dt_smaller)))),
{
    proof { lemma_trial_rules(bracketed, *t); }
    if bracketed {
        if t.trial_outside {
            return Err(LbfgsError::OutOfInterval);
        }
        if t.not_descending {
            return Err(LbfgsError::IncreaseGradient);
        }
        if t.tmax_below_tmin {
            return Err(LbfgsError::IncorrectTMinMax);
        }
    }
    let (case, now, bound) = if t.fx_below_ft {
        (TrialCase::HigherValue, true, true)
    } else if t.signs_differ {
        (TrialCase::OppositeSlopes, true, false)
    } else if t.dt_smaller {
        (TrialCase::DecreasingSlope, bracketed, true)
    } else {
        (TrialCase::SteepSlope, bracketed, false)
    };
    let update = if t.fx_below_ft {
        EndpointUpdate::ReplaceUpper
    } else if t.signs_differ {
        EndpointUpdate::ShiftAndReplaceBest
    } else {
        EndpointUpdate::ReplaceBest
    };
    Ok(TrialPlan { case, bracketed: now, update, safeguard: now && bound })
}

/// Outcomes of the comparisons made after a More-Thuente trial.
#[derive(Debug, Copy, Clone, PartialEq, Eq, Structural)]
pub struct MoreThuenteTests {
    /// `step <= stmin || stmax <= step`: the trial lies outside the interval.
    pub outside: bool,
    /// `stmax - stmin <= xtol * stmax`: the interval is too narrow.
    pub narrow: bool,
    /// `step == max_step`.
    pub at_max_step: bool,
    /// `step == min_step`.
    pub at_min_step: bool,
    /// `f <= ftest`: the sufficient decrease test holds.
    pub f_le_ftest: bool,
    /// `ftest < f`: the sufficient decrease test fails.
    pub ftest_lt_f: bool,
    /// `dg <= dgtest`.
    pub dg_le_dgtest: bool,
    /// `dgtest <= dg`.
    pub dgtest_le_dg: bool,
    /// `|dg| <= gtol * (-dginit)`: the strong curvature test holds.
    pub curvature: bool,
    /// `min(ftol, gtol) * dginit <= dg`: the derivative is no longer steep.
    pub slope_flattened: bool,
    /// `f <= fx`: the trial value does not exceed the best value.
    pub f_le_fx: bool,
}

/// What a More-Thuente search does after a trial that raised no error.
#[derive(Debug, Copy, Clone, PartialEq, Eq, Structural)]
pub enum SearchVerdict {
    /// The trial satisfies the strong Wolfe conditions: the search ends after
    /// this many evaluations.
    Accept(i32),
    /// Compute the next trial; `modified` says whether the update works on the
    /// auxiliary function `f(step) - step * dgtest`.
    Continue { modified: bool },
}

/// Whether the search stays in its first stage after a trial.
pub open spec fn stays_in_stage1(stage1: bool, t: MoreThuenteTests) -> bool {
    stage1 && !(t.f_le_ftest && t.slope_flattened)
}

/// The verdict on the `count`-th trial of a More-Thuente search.
pub open spec fn morethuente_verdict(
    bracketed: bool,
    stage1: bool,
    update_failed: bool,
    count: int,
    max_linesearch: int,
    t: MoreThuenteTests,
) -> Result<SearchVerdict, LbfgsError> {
    if bracketed && (t.outside || update_failed) {
        Err(LbfgsError::RoundingError)
    } else if t.at_max_step && t.f_le_ftest && t.dg_le_dgtest {
        Err(LbfgsError::MaximumStep)
    } else if t.at_min_step && (t.ftest_lt_f || t.dgtest_le_dg) {
        Err(LbfgsError::MinimumStep)
    } else if bracketed && t.narrow {
        Err(LbfgsError::WidthTooSmall)
    } else if max_linesearch <= count {
        Err(LbfgsError::MaximumLineSearch)
    } else if t.f_le_ftest && t.curvature {
        Ok(SearchVerdict::Accept(count as i32))
    } else {
        Ok(SearchVerdict::Continue {
            modified: stays_in_stage1(stage1, t) && t.ftest_lt_f && t.f_le_fx,
        })
    }
}

/// The More-Thuente verdict, stated check by check. Each error names a
/// condition that holds (a rounding error exactly when the minimum is
/// bracketed and the trial is outside the interval or the last update failed);
/// a step is accepted only when it satisfies the strong Wolfe conditions, and
/// always when it does and no error condition holds; otherwise the search goes
/// on, on the auxiliary function exactly when it stays in stage 1, the trial
/// fails the sufficient decrease test and its value does not exceed the best.
pub proof fn lemma_morethuente_rules(
    bracketed: bool,
    stage1: bool,
    update_failed: bool,
    count: int,
    max_linesearch: int,
    t: MoreThuenteTests,
)
    requires
        i32::MIN <= count <= i32::MAX,
    ensures
        (morethuente_verdict(bracketed, stage1, update_failed, count, max_linesearch, t)
            == Err::<SearchVerdict, LbfgsError>(LbfgsError::RoundingError))
            <==> (bracketed && (t.outside || update_failed)),
        (morethuente_verdict(bracketed, stage1, update_failed, count, max_linesearch, t)
            == Err::<SearchVerdict, LbfgsError>(LbfgsError::MaximumStep))
            ==> t.at_max_step && t.f_le_ftest && t.dg_le_dgtest,
        (morethuente_verdict(bracketed, stage1, update_failed, count, max_linesearch, t)
            == Err::<SearchVerdict, LbfgsError>(LbfgsError::MinimumStep))
            ==> t.at_min_step && (t.ftest_lt_f || t.dgtest_le_dg),
        (morethuente_verdict(bracketed, stage1, update_failed, count, max_linesearch, t)
            == Err::<SearchVerdict, LbfgsError>(LbfgsError::WidthTooSmall))
            ==> bracketed && t.narrow,
        (morethuente_verdict(bracketed, stage1, update_failed, count, max_linesearch, t)
            == Err::<SearchVerdict, LbfgsError>(LbfgsError::MaximumLineSearch))
            ==> max_linesearch <= count,
        morethuente_verdict(bracketed, stage1, update_failed, count, max_linesearch, t) matches Err(e)
            ==> e == LbfgsError::RoundingError || e == LbfgsError::MaximumStep
                || e == LbfgsError::MinimumStep || e == LbfgsError::WidthTooSmall
                || e == LbfgsError::MaximumLineSearch,
        morethuente_verdict(bracketed, stage1, update_failed, count, max_linesearch, t) matches Ok(SearchVerdict::Accept(c))
            ==> c == count && t.f_le_ftest && t.curvature,
        ({
            let no_error = !(bracketed && (t.outside || update_failed))
                && !(t.at_max_step && t.f_le_ftest && t.dg_le_dgtest)
                && !(t.at_min_step && (t.ftest_lt_f || t.dgtest_le_dg))
                && !(bracketed && t.narrow)
                && count < max_linesearch;
            no_error ==> {
                &&& morethuente_verdict(bracketed, stage1, update_failed, count, max_linesearch, t) is Ok
                &&& (t.f_le_ftest && t.curvature ==>
                    morethuente_verdict(bracketed, stage1, update_failed, count, max_linesearch, t)
                        == Ok::<SearchVerdict, LbfgsError>(SearchVerdict::Accept(count as i32)))
            }
        }),
        morethuente_verdict(bracketed, stage1, update_failed, count, max_linesearch, t) matches Ok(SearchVerdict::Continue { modified })
            ==> (modified <==> (stage1 && !(t.f_le_ftest && t.slope_flattened) && t.ftest_lt_f && t.f_le_fx)),
        morethuente_verdict(bracketed, stage1, update_failed, count, max_linesearch, t) matches Ok(SearchVerdict::Continue { modified })
            ==> (modified ==> stage1 && t.ftest_lt_f && t.f_le_fx),
        morethuente_verdict(bracketed, stage1, update_failed, count, max_linesearch, t) matches Ok(SearchVerdict::Continue { .. })
            ==> !(t.f_le_ftest && t.curvature) && count < max_linesearch,
        stays_in_stage1(stage1, t) <==> (stage1 && !(t.f_le_ftest && t.slope_flattened)),
{
}

/// The control state of a More-Thuente line search: the number of
/// evaluations, whether the minimum is bracketed, whether the search is in
/// its first stage, and whether the last trial-step update failed.
pub struct MoreThuenteState {
    max_linesearch: i32,
    count: i32,
    bracketed: bool,
    stage1: bool,
    update_failed: bool,
}

impl MoreThuenteState {
    #[verifier::type_invariant]
    spec fn inv(self) -> bool {
        &&& 0 < self.max_linesearch
        &&& 0 <= self.count <= self.max_linesearch
    }

    /// The bounds that every state keeps: a positive limit that fits an `i32`,
    /// and a count of evaluations between 0 and the limit.
    pub open spec fn within_bounds(self) -> bool {
        &&& 0 < self.limit() <= i32::MAX
        &&& 0 <= self.evaluations() <= self.limit()
    }

    /// The largest number of evaluations.
    pub closed spec fn limit(self) -> int {
        self.max_linesearch as int
    }

    /// The number of evaluations so far.
    pub closed spec fn evaluations(self) -> int {
        self.count as int
    }

    /// Whether the minimum is bracketed.
    pub closed spec fn bracketed(self) -> bool {
        self.bracketed
    }

    /// Whether the search is in its first stage.
    pub closed spec fn in_stage1(self) -> bool {
        self.stage1
    }

    /// Whether the last trial-step update failed.
    pub closed spec fn update_failed(self) -> bool {
        self.update_failed
    }

    /// The state before the first trial.
    pub fn new(max_linesearch: i32) -> (r: Self)
        requires
            max_linesearch > 0,
        ensures
            r.limit() == max_linesearch,
            r.evaluations() == 0,
            r.within_bounds(),
            !r.bracketed(),
            r.in_stage1(),
            !r.update_failed(),
    {
        MoreThuenteState { max_linesearch, count: 0, bracketed: false, stage1: true, update_failed: false }
    }

    /// Returns the number of evaluations so far.
    pub fn count(&self) -> (r: i32)
        ensures
            r == self.evaluations(),
            self.within_bounds(),
    {
        proof { use_type_invariant(self); }
        self.count
    }

    /// Returns the largest number of evaluations.
    pub fn max_evaluations(&self) -> (r: i32)
        ensures
            r == self.limit(),
            self.within_bounds(),
    {
        proof { use_type_invariant(self); }
        self.max_linesearch
    }

    /// Returns whether the minimum is bracketed.
    pub fn is_bracketed(&self) -> (r: bool)
        ensures
            r == self.bracketed(),
    {
        self.bracketed
    }

    /// Whether the next trial falls back to the best step so far: with a
    /// bracketed minimum, when the trial lies outside the interval, when this
    /// is the last evaluation allowed, when the last update failed, or when
    /// the interval is too narrow.
    pub fn fall_back_to_best(&self, outside: bool, narrow: bool) -> (r: bool)
        requires
            self.evaluations() < self.limit(),
        ensures
            self.within_bounds(),
            r == ((self.bracketed() && (outside || self.limit() <= self.evaluations() + 1
                || self.update_failed())) || (self.bracketed() && narrow)),
    {
        proof { use_type_invariant(self); }
        (self.bracketed && (outside || self.max_linesearch <= self.count + 1 || self.update_failed))
            || (self.bracketed && narrow)
    }

    /// Counts the evaluation just made and judges the trial.
    pub fn judge(&mut self, t: &MoreThuenteTests) -> (r: Result<SearchVerdict, LbfgsError>)
        requires
            old(self).evaluations() < old(self).limit(),
        ensures
            final(self).evaluations() == old(self).evaluations() + 1,
            final(self).limit() == old(self).limit(),
            final(self).within_bounds(),
            final(self).bracketed() == old(self).bracketed(),
            final(self).update_failed() == old(self).update_failed(),
            r == morethuente_verdict(old(self).bracketed(), old(self).in_stage1(),
                old(self).update_failed(), old(self).evaluations() + 1, old(self).limit(), *t),
            final(self).in_stage1() == (if r is Ok && r->Ok_0 is Continue {
                stays_in_stage1(old(self).in_stage1(), *t)
            } else {
                old(self).in_stage1()
            }),
            final(self).in_stage1() ==> old(self).in_stage1(),
            r == Ok::<SearchVerdict, LbfgsError>(SearchVerdict::Accept(final(self).evaluations() as i32))
                ==> t.f_le_ftest && t.curvature,
            r matches Ok(SearchVerdict::Continue { .. }) ==> final(self).evaluations() < final(self).limit(),
            r matches Ok(SearchVerdict::Continue { modified }) ==> {
                &&& (final(self).in_stage1() <==> (old(self).in_stage1() && !(t.f_le_ftest && t.slope_flattened)))
                &&& (modified <==> (final(self).in_stage1() && t.ftest_lt_f && t.f_le_fx))
            },
    {
        proof {
            lemma_morethuente_rules(self.bracketed(), self.in_stage1(), self.update_failed(),
                self.evaluations() + 1, self.limit(), *t);
        }
        proof { use_type_invariant(&*self); }
        let count = self.count + 1;
        let max = self.max_linesearch;
        let brk = self.bracketed;
        let failed = self.update_failed;
        let stage1 = self.stage1;
        if brk && (t.outside || failed) {
            *self = MoreThuenteState { max_linesearch: max, count, bracketed: brk, stage1, update_failed: failed };
            return Err(LbfgsError::RoundingError);
        }
        if t.at_max_step && t.f_le_ftest && t.dg_le_dgtest {
            *self = MoreThuenteState { max_linesearch: max, count, bracketed: brk, stage1, update_failed: failed };
            return Err(LbfgsError::MaximumStep);
        }
        if t.at_min_step && (t.ftest_lt_f || t.dgtest_le_dg) {
            *self = MoreThuenteState { max_linesearch: max, count, bracketed: brk, stage1, update_failed: failed };
            return Err(LbfgsError::MinimumStep);
        }
        if brk && t.narrow {
            *self = MoreThuenteState { max_linesearch: max, count, bracketed: brk, stage1, update_failed: failed };
            return Err(LbfgsError::WidthTooSmall);
        }
        if max <= count {
            *self = MoreThuenteState { max_linesearch: max, count, bracketed: brk, stage1, update_failed: failed };
            return Err(LbfgsError::MaximumLineSearch);
        }
        if t.f_le_ftest && t.curvature {
            *self = MoreThuenteState { max_linesearch: max, count, bracketed: brk, stage1, update_failed: failed };
            return Ok(SearchVerdict::Accept(count));
        }
        let stage1 = stage1 && !(t.f_le_ftest && t.slope_flattened);
        *self = MoreThuenteState { max_linesearch: max, count, bracketed: brk, stage1, update_failed: failed };
        Ok(SearchVerdict::Continue { modified: stage1 && t.ftest_lt_f && t.f_le_fx })
    }

    /// Plans the trial-step update from the comparisons `t` and records its
    /// outcome: whether it failed, and whether the minimum is now bracketed.
    pub fn plan(&mut self, t: &TrialTests) -> (r: Result<TrialPlan, LbfgsError>)
        ensures
            r == trial_outcome(old(self).bracketed(), *t),
            final(self).update_failed() == (r is Err),
            final(self).bracketed() == (match r {
                Ok(p) => p.bracketed,
                Err(_) => old(self).bracketed(),
            }),
            old(self).bracketed() ==> final(self).bracketed(),
            final(self).evaluations() == old(self).evaluations(),
            final(self).limit() == old(self).limit(),
            final(self).in_stage1() == old(self).in_stage1(),
            final(self).within_bounds(),
    {
        proof { use_type_invariant(&*self); }
        let r = plan_trial(self.bracketed, t);
        let (brk, failed) = match r {
            Ok(p) => (p.bracketed, false),
            Err(_) => (self.bracketed, true),
        };
        *self = MoreThuenteState {
            max_linesearch: self.max_linesearch,
            count: self.count,
            bracketed: brk,
            stage1: self.stage1,
            update_failed: failed,
        };
        r
    }
}

} // verus!
