use liblbfgs_compliant_rs::linesearch::{
    backtracking_next, plan_trial, search_start, BacktrackingTests, EndpointUpdate,
    MoreThuenteState, MoreThuenteTests, SearchVerdict, TrialCase, TrialPlan, TrialStep,
    TrialTests,
};
use liblbfgs_compliant_rs::status::{LbfgsError, LineSearch};

fn bt(above: bool, below_wolfe: bool, above_strong: bool) -> BacktrackingTests {
    BacktrackingTests {
        above_armijo: above,
        dg_below_wolfe: below_wolfe,
        dg_above_strong: above_strong,
        step_below_min: false,
        step_above_max: false,
    }
}

#[test]
fn start_checks() {
    assert_eq!(search_start(true, true), Some(LbfgsError::InvalidParameters));
    assert_eq!(search_start(false, true), Some(LbfgsError::IncreaseGradient));
    assert_eq!(search_start(false, false), None);
}

#[test]
fn armijo_rule() {
    let armijo = LineSearch::BacktrackingArmijo.code();
    assert_eq!(backtracking_next(armijo, 1, 40, &bt(false, true, true)), Ok(TrialStep::Accept));
    assert_eq!(backtracking_next(armijo, 1, 40, &bt(true, false, false)), Ok(TrialStep::Shrink));
}

#[test]
fn wolfe_rule() {
    let wolfe = LineSearch::BacktrackingWolfe.code();
    assert_eq!(backtracking_next(wolfe, 1, 40, &bt(false, true, false)), Ok(TrialStep::Grow));
    assert_eq!(backtracking_next(wolfe, 1, 40, &bt(false, false, true)), Ok(TrialStep::Accept));
    assert_eq!(backtracking_next(wolfe, 1, 40, &bt(true, false, false)), Ok(TrialStep::Shrink));
}

#[test]
fn strong_wolfe_rule() {
    let strong = LineSearch::BacktrackingStrongWolfe.code();
    assert_eq!(backtracking_next(strong, 1, 40, &bt(false, true, false)), Ok(TrialStep::Grow));
    assert_eq!(backtracking_next(strong, 1, 40, &bt(false, false, true)), Ok(TrialStep::Shrink));
    assert_eq!(backtracking_next(strong, 1, 40, &bt(false, false, false)), Ok(TrialStep::Accept));
}

#[test]
fn backtracking_bounds() {
    let wolfe = LineSearch::BacktrackingWolfe.code();
    let mut t = bt(true, false, false);
    assert_eq!(backtracking_next(wolfe, 40, 40, &t), Err(LbfgsError::MaximumLineSearch));
    t.step_above_max = true;
    assert_eq!(backtracking_next(wolfe, 40, 40, &t), Err(LbfgsError::MaximumStep));
    t.step_below_min = true;
    assert_eq!(backtracking_next(wolfe, 40, 40, &t), Err(LbfgsError::MinimumStep));
    // An accepted trial is accepted whatever the bounds say.
    let mut ok = bt(false, false, false);
    ok.step_below_min = true;
    assert_eq!(backtracking_next(wolfe, 40, 40, &ok), Ok(TrialStep::Accept));
}

fn tt(fx_below_ft: bool, signs_differ: bool, dt_smaller: bool) -> TrialTests {
    TrialTests {
        trial_outside: false,
        not_descending: false,
        tmax_below_tmin: false,
        fx_below_ft,
        signs_differ,
        dt_smaller,
    }
}

#[test]
fn trial_cases() {
    assert_eq!(
        plan_trial(false, &tt(true, true, true)),
        Ok(TrialPlan {
            case: TrialCase::HigherValue,
            bracketed: true,
            update: EndpointUpdate::ReplaceUpper,
            safeguard: true,
        })
    );
    assert_eq!(
        plan_trial(false, &tt(false, true, true)),
        Ok(TrialPlan {
            case: TrialCase::OppositeSlopes,
            bracketed: true,
            update: EndpointUpdate::ShiftAndReplaceBest,
            safeguard: false,
        })
    );
    assert_eq!(
        plan_trial(false, &tt(false, false, true)),
        Ok(TrialPlan {
            case: TrialCase::DecreasingSlope,
            bracketed: false,
            update: EndpointUpdate::ReplaceBest,
            safeguard: false,
        })
    );
    assert_eq!(
        plan_trial(true, &tt(false, false, true)),
        Ok(TrialPlan {
            case: TrialCase::DecreasingSlope,
            bracketed: true,
            update: EndpointUpdate::ReplaceBest,
            safeguard: true,
        })
    );
    assert_eq!(
        plan_trial(true, &tt(false, false, false)),
        Ok(TrialPlan {
            case: TrialCase::SteepSlope,
            bracketed: true,
            update: EndpointUpdate::ReplaceBest,
            safeguard: false,
        })
    );
}

#[test]
fn trial_errors_only_when_bracketed() {
    let mut t = tt(false, false, false);
    t.trial_outside = true;
    t.not_descending = true;
    t.tmax_below_tmin = true;
    assert!(plan_trial(false, &t).is_ok());
    assert_eq!(plan_trial(true, &t), Err(LbfgsError::OutOfInterval));
    t.trial_outside = false;
    assert_eq!(plan_trial(true, &t), Err(LbfgsError::IncreaseGradient));
    t.not_descending = false;
    assert_eq!(plan_trial(true, &t), Err(LbfgsError::IncorrectTMinMax));
}

fn mt() -> MoreThuenteTests {
    MoreThuenteTests {
        outside: false,
        narrow: false,
        at_max_step: false,
        at_min_step: false,
        f_le_ftest: false,
        ftest_lt_f: true,
        dg_le_dgtest: false,
        dgtest_le_dg: false,
        curvature: false,
        slope_flattened: false,
        f_le_fx: true,
    }
}

#[test]
fn more_thuente_accepts_strong_wolfe_point() {
    let mut s = MoreThuenteState::new(20);
    let mut t = mt();
    t.f_le_ftest = true;
    t.ftest_lt_f = false;
    t.curvature = true;
    assert_eq!(s.judge(&t), Ok(SearchVerdict::Accept(1)));
}

#[test]
fn more_thuente_stage_one() {
    let mut s = MoreThuenteState::new(20);
    // Value above the sufficient decrease line but not above the best: modified function.
    assert_eq!(s.judge(&mt()), Ok(SearchVerdict::Continue { modified: true }));
    // Leaving stage 1: sufficient decrease and a flattened slope.
    let mut t = mt();
    t.f_le_ftest = true;
    t.ftest_lt_f = false;
    t.slope_flattened = true;
    assert_eq!(s.judge(&t), Ok(SearchVerdict::Continue { modified: false }));
    // Stage 1 does not come back.
    assert_eq!(s.judge(&mt()), Ok(SearchVerdict::Continue { modified: false }));
}

#[test]
fn more_thuente_errors() {
    let mut s = MoreThuenteState::new(2);
    assert_eq!(s.judge(&mt()), Ok(SearchVerdict::Continue { modified: true }));
    assert_eq!(s.judge(&mt()), Err(LbfgsError::MaximumLineSearch));

    let mut s = MoreThuenteState::new(20);
    let mut t = mt();
    t.at_min_step = true;
    assert_eq!(s.judge(&t), Err(LbfgsError::MinimumStep));

    let mut s = MoreThuenteState::new(20);
    let mut t = mt();
    t.at_max_step = true;
    t.f_le_ftest = true;
    t.ftest_lt_f = false;
    t.dg_le_dgtest = true;
    assert_eq!(s.judge(&t), Err(LbfgsError::MaximumStep));
}

#[test]
fn more_thuente_bracketed_errors() {
    let mut s = MoreThuenteState::new(20);
    assert!(!s.is_bracketed());
    assert!(!s.fall_back_to_best(true, true));
    // A higher trial value brackets the minimum.
    let p = s.plan(&tt(true, false, false)).unwrap();
    assert!(p.bracketed);
    assert!(s.is_bracketed());
    assert!(s.fall_back_to_best(true, false));
    assert!(s.fall_back_to_best(false, true));
    assert!(!s.fall_back_to_best(false, false));
    let mut t = mt();
    t.narrow = true;
    assert_eq!(s.judge(&t), Err(LbfgsError::WidthTooSmall));

    let mut s = MoreThuenteState::new(20);
    s.plan(&tt(true, false, false)).unwrap();
    let mut bad = tt(false, false, false);
    bad.trial_outside = true;
    assert_eq!(s.plan(&bad), Err(LbfgsError::OutOfInterval));
    assert!(s.is_bracketed());
    // After a failed update the next trial falls back, then is a rounding error.
    assert!(s.fall_back_to_best(false, false));
    assert_eq!(s.judge(&mt()), Err(LbfgsError::RoundingError));
}

#[test]
fn more_thuente_last_evaluation_falls_back() {
    let mut s = MoreThuenteState::new(2);
    s.plan(&tt(true, false, false)).unwrap();
    assert!(!s.fall_back_to_best(false, false));
    assert_eq!(s.judge(&mt()), Ok(SearchVerdict::Continue { modified: true }));
    assert!(s.fall_back_to_best(false, false));
}
