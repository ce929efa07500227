use liblbfgs_compliant_rs::params::{
    validate_params, FloatParamTests, IntegerParams, LineSearchMethod, Setup,
};
use liblbfgs_compliant_rs::status::{LbfgsError, LineSearch};

fn defaults() -> IntegerParams {
    IntegerParams {
        past: 0,
        linesearch: LineSearch::MoreThuente.code(),
        max_linesearch: 40,
        orthantwise_start: 0,
        orthantwise_end: -1,
    }
}

fn passing() -> FloatParamTests {
    FloatParamTests {
        epsilon_negative: false,
        delta_negative: false,
        min_step_negative: false,
        max_step_below_min_step: false,
        ftol_negative: false,
        wolfe_out_of_range: false,
        gtol_negative: false,
        xtol_negative: false,
        orthantwise_c_negative: false,
        orthantwise_active: false,
    }
}

fn owlqn(c_negative: bool) -> (IntegerParams, FloatParamTests) {
    let mut p = defaults();
    p.linesearch = LineSearch::BacktrackingWolfe.code();
    let mut t = passing();
    t.orthantwise_c_negative = c_negative;
    t.orthantwise_active = true;
    (p, t)
}

#[test]
fn defaults_select_more_thuente() {
    assert_eq!(
        validate_params(2, &defaults(), &passing()),
        Ok(Setup {
            method: LineSearchMethod::MoreThuente,
            orthantwise_start: 0,
            orthantwise_end: 2,
        })
    );
}

#[test]
fn backtracking_kinds_select_backtracking() {
    for ls in [
        LineSearch::BacktrackingArmijo,
        LineSearch::BacktrackingWolfe,
        LineSearch::BacktrackingStrongWolfe,
    ] {
        let mut p = defaults();
        p.linesearch = ls.code();
        let r = validate_params(4, &p, &passing()).unwrap();
        assert_eq!(r.method, LineSearchMethod::Backtracking);
    }
}

#[test]
fn test_invalid_n() {
    assert_eq!(validate_params(0, &defaults(), &passing()), Err(LbfgsError::InvalidN));
}

#[test]
fn test_invalid_epsilon() {
    let mut t = passing();
    t.epsilon_negative = true;
    assert_eq!(validate_params(1, &defaults(), &t), Err(LbfgsError::InvalidEpsilon));
}

#[test]
fn test_invalid_past() {
    let mut p = defaults();
    p.past = -1;
    assert_eq!(validate_params(1, &p, &passing()), Err(LbfgsError::InvalidTestPeriod));
}

#[test]
fn test_invalid_delta() {
    let mut t = passing();
    t.delta_negative = true;
    assert_eq!(validate_params(1, &defaults(), &t), Err(LbfgsError::InvalidDelta));
}

#[test]
fn test_invalid_minstep() {
    // min_step = -1 is negative; it is also below max_step, so only the first check fails.
    let mut t = passing();
    t.min_step_negative = true;
    assert_eq!(validate_params(1, &defaults(), &t), Err(LbfgsError::InvalidMinStep));
}

#[test]
fn test_invalid_maxstep() {
    // max_step = 0 is below the default min_step 1e-20.
    let mut t = passing();
    t.max_step_below_min_step = true;
    assert_eq!(validate_params(1, &defaults(), &t), Err(LbfgsError::InvalidMaxStep));
}

#[test]
fn test_invalid_ftol() {
    // ftol = -1 also makes the default wolfe (0.9) pass `wolfe <= ftol`; the
    // default search does not check wolfe.
    let mut t = passing();
    t.ftol_negative = true;
    assert_eq!(validate_params(1, &defaults(), &t), Err(LbfgsError::InvalidFtol));
}

#[test]
fn test_invalid_wolfe() {
    let mut p = defaults();
    p.linesearch = LineSearch::BacktrackingWolfe.code();
    let mut t = passing();
    t.wolfe_out_of_range = true;
    assert_eq!(validate_params(1, &p, &t), Err(LbfgsError::InvalidWolfe));
}

#[test]
fn wolfe_is_checked_only_by_wolfe_searches() {
    let mut t = passing();
    t.wolfe_out_of_range = true;
    assert!(validate_params(1, &defaults(), &t).is_ok());
    let mut p = defaults();
    p.linesearch = LineSearch::BacktrackingArmijo.code();
    assert!(validate_params(1, &p, &t).is_ok());
    p.linesearch = LineSearch::BacktrackingStrongWolfe.code();
    assert_eq!(validate_params(1, &p, &t), Err(LbfgsError::InvalidWolfe));
}

#[test]
fn test_invalid_gtol() {
    let mut t = passing();
    t.gtol_negative = true;
    assert_eq!(validate_params(1, &defaults(), &t), Err(LbfgsError::InvalidGtol));
}

#[test]
fn test_invalid_xtol() {
    let mut t = passing();
    t.xtol_negative = true;
    assert_eq!(validate_params(1, &defaults(), &t), Err(LbfgsError::InvalidXtol));
}

#[test]
fn test_invalid_maxlinesearch() {
    let mut p = defaults();
    p.max_linesearch = 0;
    assert_eq!(validate_params(1, &p, &passing()), Err(LbfgsError::InvalidMaxLineSearch));
}

#[test]
fn test_invalid_orthantwise() {
    let (p, t) = owlqn(true);
    assert_eq!(validate_params(1, &p, &t), Err(LbfgsError::InvalidOrthantwise));
}

#[test]
fn test_invalid_linesearch_code() {
    let (mut p, t) = owlqn(false);
    p.linesearch = LineSearch::MoreThuente.code();
    assert_eq!(validate_params(1, &p, &t), Err(LbfgsError::InvalidLineSearch));
}

#[test]
fn test_owlqn_invalid_linesearch() {
    let (mut p, t) = owlqn(false);
    p.linesearch = LineSearch::MoreThuente.code();
    assert_eq!(validate_params(2, &p, &t), Err(LbfgsError::InvalidLineSearch));
}

#[test]
fn owlqn_accepts_only_backtracking_wolfe() {
    let (mut p, t) = owlqn(false);
    assert_eq!(
        validate_params(4, &p, &t),
        Ok(Setup {
            method: LineSearchMethod::BacktrackingOwlqn,
            orthantwise_start: 0,
            orthantwise_end: 4,
        })
    );
    p.linesearch = LineSearch::BacktrackingArmijo.code();
    assert_eq!(validate_params(4, &p, &t), Err(LbfgsError::InvalidLineSearch));
    p.linesearch = LineSearch::BacktrackingStrongWolfe.code();
    assert_eq!(validate_params(4, &p, &t), Err(LbfgsError::InvalidLineSearch));
}

#[test]
fn unknown_line_search_code() {
    let mut p = defaults();
    p.linesearch = 7;
    assert_eq!(validate_params(3, &p, &passing()), Err(LbfgsError::InvalidLineSearch));
    p.linesearch = -1;
    assert_eq!(validate_params(3, &p, &passing()), Err(LbfgsError::InvalidLineSearch));
}

#[test]
fn orthantwise_range_checks() {
    let mut p = defaults();
    p.orthantwise_start = 1;
    p.orthantwise_end = 3;
    assert_eq!(
        validate_params(4, &p, &passing()),
        Ok(Setup {
            method: LineSearchMethod::MoreThuente,
            orthantwise_start: 1,
            orthantwise_end: 3,
        })
    );
    p.orthantwise_start = 5;
    assert_eq!(validate_params(4, &p, &passing()), Err(LbfgsError::InvalidOrthantwiseStart));
    p.orthantwise_start = -1;
    assert_eq!(validate_params(4, &p, &passing()), Err(LbfgsError::InvalidOrthantwiseStart));
    p.orthantwise_start = 4;
    p.orthantwise_end = 5;
    assert_eq!(validate_params(4, &p, &passing()), Err(LbfgsError::InvalidOrthantwiseEnd));
    p.orthantwise_end = -7;
    assert_eq!(validate_params(4, &p, &passing()).unwrap().orthantwise_end, 4);
}

#[test]
fn checks_come_in_order() {
    let mut p = defaults();
    p.past = -1;
    p.max_linesearch = 0;
    let mut t = passing();
    t.gtol_negative = true;
    t.epsilon_negative = true;
    assert_eq!(validate_params(0, &p, &t), Err(LbfgsError::InvalidN));
    assert_eq!(validate_params(1, &p, &t), Err(LbfgsError::InvalidEpsilon));
    t.epsilon_negative = false;
    assert_eq!(validate_params(1, &p, &t), Err(LbfgsError::InvalidTestPeriod));
    p.past = 0;
    assert_eq!(validate_params(1, &p, &t), Err(LbfgsError::InvalidGtol));
    t.gtol_negative = false;
    assert_eq!(validate_params(1, &p, &t), Err(LbfgsError::InvalidMaxLineSearch));
}
