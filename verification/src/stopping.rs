//! The integer parts of the stopping tests: the iteration limit and the
//! circular record of past objective values read by the delta-based test.

use vstd::prelude::*;
use crate::history::{slot_of, lemma_pair_lifetime};
use crate::status::{
    LbfgsError, Convergence, status_of_code, LBFGS_SUCCESS, LBFGS_STOP, LBFGS_ALREADY_MINIMIZED, LBFGSERR_CANCELED,
    LBFGSERR_MAXIMUMITERATION,
};

verus! {

/// Whether the iteration limit stops the optimizer at the end of iteration
/// `k`: a limit of 0 means no limit; otherwise the run stops once
/// `max_iterations < k + 1`, with `k + 1` read as an `i32`.
pub fn iteration_limit_reached(max_iterations: i32, k: usize) -> (r: bool)
    requires
        k < usize::MAX,
    ensures
        r == (max_iterations != 0 && max_iterations < ((k + 1) as i32)),
{
    max_iterations != 0 && max_iterations < (k + 1) as i32
}

/// With a positive limit, the run stops at the end of iteration `k` exactly
/// when `k` has reached the limit; so it makes `max_iterations` iterations.
pub proof fn lemma_iteration_limit(max_iterations: i32, k: int)
    requires
        0 < max_iterations,
        1 <= k < i32::MAX,
    ensures
        (max_iterations != 0 && max_iterations < ((k + 1) as i32)) <==> k >= max_iterations,
{
}

/// For the delta-based test at iteration `k` (0 standing for the starting
/// point): `None` when the test is off (`past == 0`); otherwise whether the test is due (`past <= k`) and the slot
/// of the record of past values that the iteration reads and then overwrites.
pub fn delta_slot(k: usize, past: i32) -> (r: Option<(bool, usize)>)
    requires
        past >= 0,
    ensures
        r is None <==> past == 0,
        r matches Some(p) ==> p.0 == (past <= k) && p.1 == (k as int) % (past as int) && p.1 < past,
{
    if past == 0 {
        None
    } else {
        let p = past as usize;
        Some((p <= k, k % p))
    }
}

/// The record holds the initial value in slot 0 and each iteration `i` writes
/// slot `i % past`; so the slot that iteration `k >= past` reads holds the
/// value of iteration `k - past` (0 standing for the initial point): that
/// iteration wrote it and none in between did.
pub proof fn lemma_delta_reference(k: int, past: int)
    requires
        past > 0,
        k >= past,
    ensures
        (k - past) % past == k % past,
        forall|i: int| k - past < i < k ==> #[trigger] (i % past) != k % past,
{
    let q = (k - past) / past;
    let s = (k - past) % past;
    vstd::arithmetic::div_mod::lemma_fundamental_div_mod(k - past, past);
    vstd::arithmetic::div_mod::lemma_mod_bound(k - past, past);
    assert(k == (q + 1) * past + s) by (nonlinear_arith)
        requires k - past == past * q + s;
    vstd::arithmetic::div_mod::lemma_fundamental_div_mod_converse(k, past, q + 1, s);
    assert forall|i: int| k - past < i < k implies #[trigger] (i % past) != k % past by {
        assert(slot_of(i + 1, past) == i % past);
        lemma_pair_lifetime(past, i + 1, k + 1);
    }
}

/// The status code with which an iteration ends the run, or `None` when the
/// run goes on. The tests come in this order: a failed line search (its
/// negative code `ls`), a stop asked by the progress callback (a
/// cancellation), the gradient test, the delta-based test, the iteration limit.
pub open spec fn spec_iteration_outcome(
    ls: i32,
    proceed: bool,
    converged: bool,
    delta_stop: bool,
    limit_reached: bool,
) -> Option<i32> {
    if ls < 0 {
        Some(ls)
    } else if !proceed {
        Some(-1021i32)
    } else if converged {
        Some(0i32)
    } else if delta_stop {
        Some(1i32)
    } else if limit_reached {
        Some(-997i32)
    } else {
        None
    }
}

/// Decides whether an iteration ends the run, and with which status code.
pub fn iteration_outcome(
    ls: i32,
    proceed: bool,
    converged: bool,
    delta_stop: bool,
    limit_reached: bool,
) -> (r: Option<i32>)
    ensures
        r == spec_iteration_outcome(ls, proceed, converged, delta_stop, limit_reached),
{
    if ls < 0 {
        Some(ls)
    } else if !proceed {
        Some(LBFGSERR_CANCELED)
    } else if converged {
        Some(LBFGS_SUCCESS)
    } else if delta_stop {
        Some(LBFGS_STOP)
    } else if limit_reached {
        Some(LBFGSERR_MAXIMUMITERATION)
    } else {
        None
    }
}

/// What a run reports when an iteration ends it: the gradient test gives
/// [`Convergence::Gradient`], the delta-based test [`Convergence::Delta`],
/// the iteration limit [`LbfgsError::MaximumIteration`], and a stop asked by
/// the progress callback, at whatever iteration, [`LbfgsError::Canceled`].
pub proof fn lemma_iteration_status(
    ls: i32,
    proceed: bool,
    converged: bool,
    delta_stop: bool,
    limit_reached: bool,
)
    requires
        ls >= 0,
    ensures
        spec_iteration_outcome(ls, proceed, converged, delta_stop, limit_reached) matches Some(c)
            ==> status_of_code(c as int) == (if !proceed {
                Err::<Convergence, LbfgsError>(LbfgsError::Canceled)
            } else if converged {
                Ok(Convergence::Gradient)
            } else if delta_stop {
                Ok(Convergence::Delta)
            } else {
                Err(LbfgsError::MaximumIteration)
            }),
{
    crate::status::lemma_error_code_roundtrip(LbfgsError::Canceled);
    crate::status::lemma_error_code_roundtrip(LbfgsError::MaximumIteration);
}

/// The status of a run whose starting point already passes the gradient
/// test: it ends at once, reporting [`Convergence::AlreadyMinimized`].
pub fn initial_outcome(converged: bool) -> (r: Option<i32>)
    ensures
        r == (if converged { Some(2i32) } else { None::<i32> }),
        converged ==> status_of_code(2) == Ok::<Convergence, LbfgsError>(Convergence::AlreadyMinimized),
{
    if converged { Some(LBFGS_ALREADY_MINIMIZED) } else { None }
}

} // verus!
