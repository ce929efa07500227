//! Validation of the optimizer's parameters and selection of the line search.
//!
//! The comparisons of floating-point parameters are made by the caller; this
//! module receives their outcomes and decides, in the documented order of the
//! checks, which error (if any) the parameters give, where the L1-regularized
//! range ends, and which line-search routine runs.

use vstd::prelude::*;
use crate::status::{
    LbfgsError, LBFGS_LINESEARCH_MORETHUENTE, LBFGS_LINESEARCH_BACKTRACKING_ARMIJO,
    LBFGS_LINESEARCH_BACKTRACKING_WOLFE, LBFGS_LINESEARCH_BACKTRACKING_STRONG_WOLFE,
};

verus! {

/// The integer-valued parameters that the validation reads.
#[derive(Debug, Copy, Clone, PartialEq, Eq, Structural)]
pub struct IntegerParams {
    /// Distance in iterations for the delta-based test (0 disables it).
    pub past: i32,
    /// The code of the line search algorithm (`LBFGS_LINESEARCH_*`).
    pub linesearch: i32,
    /// Maximum number of trials per line search.
    pub max_linesearch: i32,
    /// Start index of the L1-regularized range.
    pub orthantwise_start: i32,
    /// End index of the L1-regularized range (negative: the number of variables).
    pub orthantwise_end: i32,
}

/// Outcomes of the comparisons on the floating-point parameters.
#[derive(Debug, Copy, Clone, PartialEq, Eq, Structural)]
pub struct FloatParamTests {
    /// `epsilon < 0`.
    pub epsilon_negative: bool,
    /// `delta < 0`.
    pub delta_negative: bool,
    /// `min_step < 0`.
    pub min_step_negative: bool,
    /// `max_step < min_step`.
    pub max_step_below_min_step: bool,
    /// `ftol < 0`.
    pub ftol_negative: bool,
    /// `wolfe <= ftol || 1 <= wolfe`.
    pub wolfe_out_of_range: bool,
    /// `gtol < 0`.
    pub gtol_negative: bool,
    /// `xtol < 0`.
    pub xtol_negative: bool,
    /// `orthantwise_c < 0`.
    pub orthantwise_c_negative: bool,
    /// `orthantwise_c != 0`: the L1-regularized (OWL-QN) mode is active.
    pub orthantwise_active: bool,
}

/// The line-search routine that the optimizer runs.
#[derive(Debug, Copy, Clone, PartialEq, Eq, Structural)]
pub enum LineSearchMethod {
    /// More-Thuente search.
    MoreThuente,
    /// Backtracking search (Armijo, Wolfe or strong Wolfe, as configured).
    Backtracking,
    /// Backtracking search of the OWL-QN method.
    BacktrackingOwlqn,
}

/// What a successful validation hands to the optimizer.
#[derive(Debug, Copy, Clone, PartialEq, Eq, Structural)]
pub struct Setup {
    /// The line-search routine to run.
    pub method: LineSearchMethod,
    /// Start of the L1-regularized range.
    pub orthantwise_start: usize,
    /// End of the L1-regularized range, resolved against the number of variables.
    pub orthantwise_end: usize,
}

/// The end of the L1-regularized range: a negative end stands for `n`.
pub open spec fn resolved_end(n: i32, end: i32) -> int {
    if end < 0 { n as int } else { end as int }
}

/// The first check that the parameters fail, in the order in which the
/// optimizer makes them, or `None` when all pass.
pub open spec fn param_error(n: usize, p: IntegerParams, t: FloatParamTests) -> Option<LbfgsError> {
    let n32 = n as i32;
    if n32 <= 0 {
        Some(LbfgsError::InvalidN)
    } else if t.epsilon_negative {
        Some(LbfgsError::InvalidEpsilon)
    } else if p.past < 0 {
        Some(LbfgsError::InvalidTestPeriod)
    } else if t.delta_negative {
        Some(LbfgsError::InvalidDelta)
    } else if t.min_step_negative {
        Some(LbfgsError::InvalidMinStep)
    } else if t.max_step_below_min_step {
        Some(LbfgsError::InvalidMaxStep)
    } else if t.ftol_negative {
        Some(LbfgsError::InvalidFtol)
    } else if (p.linesearch == 2 || p.linesearch == 3) && t.wolfe_out_of_range {
        Some(LbfgsError::InvalidWolfe)
    } else if t.gtol_negative {
        Some(LbfgsError::InvalidGtol)
    } else if t.xtol_negative {
        Some(LbfgsError::InvalidXtol)
    } else if p.max_linesearch <= 0 {
        Some(LbfgsError::InvalidMaxLineSearch)
    } else if t.orthantwise_c_negative {
        Some(LbfgsError::InvalidOrthantwise)
    } else if p.orthantwise_start < 0 || n32 < p.orthantwise_start {
        Some(LbfgsError::InvalidOrthantwiseStart)
    } else if n32 < resolved_end(n32, p.orthantwise_end) {
        Some(LbfgsError::InvalidOrthantwiseEnd)
    } else if t.orthantwise_active && p.linesearch != 2 {
        Some(LbfgsError::InvalidLineSearch)
    } else if !t.orthantwise_active && !(0 <= p.linesearch <= 3) {
        Some(LbfgsError::InvalidLineSearch)
    } else {
        None
    }
}

/// The routine that runs: OWL-QN's own backtracking in the L1-regularized
/// mode, More-Thuente for code 0, backtracking for the other valid codes.
pub open spec fn selected_method(active: bool, ls: i32) -> LineSearchMethod {
    if active {
        LineSearchMethod::BacktrackingOwlqn
    } else if ls == 0 {
        LineSearchMethod::MoreThuente
    } else {
        LineSearchMethod::Backtracking
    }
}

/// Every check on the parameters passes, stated check by check.
pub open spec fn all_checks_pass(n: usize, p: IntegerParams, t: FloatParamTests) -> bool {
    let n32 = n as i32;
    &&& n32 > 0
    &&& !t.epsilon_negative
    &&& p.past >= 0
    &&& !t.delta_negative
    &&& !t.min_step_negative
    &&& !t.max_step_below_min_step
    &&& !t.ftol_negative
    &&& (p.linesearch == 2 || p.linesearch == 3 ==> !t.wolfe_out_of_range)
    &&& !t.gtol_negative
    &&& !t.xtol_negative
    &&& p.max_linesearch > 0
    &&& !t.orthantwise_c_negative
    &&& 0 <= p.orthantwise_start <= n32
    &&& (p.orthantwise_end < 0 || p.orthantwise_end <= n32)
    &&& (t.orthantwise_active ==> p.linesearch == 2)
    &&& (!t.orthantwise_active ==> 0 <= p.linesearch <= 3)
}

/// Validation accepts exactly the parameters that pass every check (the
/// Wolfe coefficient is checked for codes 2 and 3 whether or not OWL-QN is
/// on), and each error it reports names a check that fails.
pub proof fn lemma_validation_checks(n: usize, p: IntegerParams, t: FloatParamTests)
    ensures
        param_error(n, p, t) is None <==> all_checks_pass(n, p, t),
        param_error(n, p, t) is None ==> !((p.linesearch == 2 || p.linesearch == 3) && t.wolfe_out_of_range),
        param_error(n, p, t) == Some(LbfgsError::InvalidN) ==> (n as i32) <= 0,
        param_error(n, p, t) == Some(LbfgsError::InvalidEpsilon) ==> t.epsilon_negative,
        param_error(n, p, t) == Some(LbfgsError::InvalidTestPeriod) ==> p.past < 0,
        param_error(n, p, t) == Some(LbfgsError::InvalidDelta) ==> t.delta_negative,
        param_error(n, p, t) == Some(LbfgsError::InvalidMinStep) ==> t.min_step_negative,
        param_error(n, p, t) == Some(LbfgsError::InvalidMaxStep) ==> t.max_step_below_min_step,
        param_error(n, p, t) == Some(LbfgsError::InvalidFtol) ==> t.ftol_negative,
        param_error(n, p, t) == Some(LbfgsError::InvalidWolfe)
            ==> (p.linesearch == 2 || p.linesearch == 3) && t.wolfe_out_of_range,
        param_error(n, p, t) == Some(LbfgsError::InvalidGtol) ==> t.gtol_negative,
        param_error(n, p, t) == Some(LbfgsError::InvalidXtol) ==> t.xtol_negative,
        param_error(n, p, t) == Some(LbfgsError::InvalidMaxLineSearch) ==> p.max_linesearch <= 0,
        param_error(n, p, t) == Some(LbfgsError::InvalidOrthantwise) ==> t.orthantwise_c_negative,
        param_error(n, p, t) == Some(LbfgsError::InvalidOrthantwiseStart)
            ==> p.orthantwise_start < 0 || (n as i32) < p.orthantwise_start,
        param_error(n, p, t) == Some(LbfgsError::InvalidOrthantwiseEnd)
            ==> 0 <= p.orthantwise_end && (n as i32) < p.orthantwise_end,
        param_error(n, p, t) == Some(LbfgsError::InvalidLineSearch)
            ==> (t.orthantwise_active && p.linesearch != 2)
                || (!t.orthantwise_active && !(0 <= p.linesearch <= 3)),
        param_error(n, p, t) is Some ==> !all_checks_pass(n, p, t),
        // The checks come in order: an earlier failing check hides the later ones.
        (n as i32) <= 0 ==> param_error(n, p, t) == Some(LbfgsError::InvalidN),
        (n as i32) > 0 && t.epsilon_negative ==> param_error(n, p, t) == Some(LbfgsError::InvalidEpsilon),
        // The selected routine.
        all_checks_pass(n, p, t) ==> selected_method(t.orthantwise_active, p.linesearch) == (
            if t.orthantwise_active {
                LineSearchMethod::BacktrackingOwlqn
            } else if p.linesearch == 0 {
                LineSearchMethod::MoreThuente
            } else {
                LineSearchMethod::Backtracking
            }),
{
}

/// Validates the parameters for a problem of `n` variables and selects the
/// line search.
pub fn validate_params(n: usize, p: &IntegerParams, t: &FloatParamTests) -> (r: Result<Setup, LbfgsError>)
    ensures
        match param_error(n, *p, *t) {
            Some(e) => r == Err::<Setup, LbfgsError>(e),
            None => r == Ok::<Setup, LbfgsError>(Setup {
                method: selected_method(t.orthantwise_active, p.linesearch),
                orthantwise_start: p.orthantwise_start as usize,
                orthantwise_end: resolved_end(n as i32, p.orthantwise_end) as usize,
            }),
        },
        r is Ok <==> all_checks_pass(n, *p, *t),
        r is Ok ==> !((p.linesearch == 2 || p.linesearch == 3) && t.wolfe_out_of_range),
        r matches Ok(s) ==> {
            &&& 0 < n
            &&& s.orthantwise_start <= n
            &&& s.orthantwise_end <= n
            &&& s.orthantwise_start == p.orthantwise_start
            &&& s.orthantwise_end == (if p.orthantwise_end < 0 { (n as i32) as int } else { p.orthantwise_end as int })
            &&& (s.method == LineSearchMethod::BacktrackingOwlqn <==> t.orthantwise_active)
            &&& (t.orthantwise_active ==> p.linesearch == 2)
            &&& 0 <= p.linesearch <= 3
        },
{
    let n32 = n as i32;
    if n32 <= 0 {
        return Err(LbfgsError::InvalidN);
    }
    if t.epsilon_negative {
        return Err(LbfgsError::InvalidEpsilon);
    }
    if p.past < 0 {
        return Err(LbfgsError::InvalidTestPeriod);
    }
    if t.delta_negative {
        return Err(LbfgsError::InvalidDelta);
    }
    if t.min_step_negative {
        return Err(LbfgsError::InvalidMinStep);
    }
    if t.max_step_below_min_step {
        return Err(LbfgsError::InvalidMaxStep);
    }
    if t.ftol_negative {
        return Err(LbfgsError::InvalidFtol);
    }
    if (p.linesearch == LBFGS_LINESEARCH_BACKTRACKING_WOLFE
        || p.linesearch == LBFGS_LINESEARCH_BACKTRACKING_STRONG_WOLFE) && t.wolfe_out_of_range {
        return Err(LbfgsError::InvalidWolfe);
    }
    if t.gtol_negative {
        return Err(LbfgsError::InvalidGtol);
    }
    if t.xtol_negative {
        return Err(LbfgsError::InvalidXtol);
    }
    if p.max_linesearch <= 0 {
        return Err(LbfgsError::InvalidMaxLineSearch);
    }
    if t.orthantwise_c_negative {
        return Err(LbfgsError::InvalidOrthantwise);
    }
    if p.orthantwise_start < 0 || n32 < p.orthantwise_start {
        return Err(LbfgsError::InvalidOrthantwiseStart);
    }
    let end = if p.orthantwise_end < 0 { n32 } else { p.orthantwise_end };
    if n32 < end {
        return Err(LbfgsError::InvalidOrthantwiseEnd);
    }
    let method = if t.orthantwise_active {
        if p.linesearch == LBFGS_LINESEARCH_BACKTRACKING_WOLFE {
            LineSearchMethod::BacktrackingOwlqn
        } else {
            return Err(LbfgsError::InvalidLineSearch);
        }
    } else if p.linesearch == LBFGS_LINESEARCH_MORETHUENTE {
        LineSearchMethod::MoreThuente
    } else if p.linesearch == LBFGS_LINESEARCH_BACKTRACKING_ARMIJO
        || p.linesearch == LBFGS_LINESEARCH_BACKTRACKING_WOLFE
        || p.linesearch == LBFGS_LINESEARCH_BACKTRACKING_STRONG_WOLFE {
        LineSearchMethod::Backtracking
    } else {
        return Err(LbfgsError::InvalidLineSearch);
    };
    proof {
        lemma_validation_checks(n, *p, *t);
        assert(0 < n32 <= n) by (bit_vector)
            requires n32 == n as i32, 0 < n32;
    }
    Ok(Setup {
        method,
        orthantwise_start: p.orthantwise_start as usize,
        orthantwise_end: end as usize,
    })
}

} // verus!
