use liblbfgs_compliant_rs::history::History;
use liblbfgs_compliant_rs::stopping::{
    delta_slot, initial_outcome, iteration_limit_reached, iteration_outcome,
};
use liblbfgs_compliant_rs::status::{code_to_status, Convergence, LbfgsError};

#[test]
fn history_fills_slots_in_turn() {
    let mut h = History::new(3);
    assert_eq!(h.current_iteration(), 1);
    assert_eq!(h.slots(), 3);
    let mut got = Vec::new();
    for _ in 0..7 {
        got.push(h.store());
    }
    assert_eq!(got, vec![(0, 1), (1, 2), (2, 3), (0, 3), (1, 3), (2, 3), (0, 3)]);
    assert_eq!(h.current_iteration(), 8);
}

#[test]
fn recursion_visits_latest_pairs() {
    let mut h = History::new(3);
    // Iterations 1..=4 store into slots 0, 1, 2, 0.
    let mut bound = 0;
    for _ in 0..4 {
        bound = h.store().1;
    }
    assert_eq!(bound, 3);
    // Latest pair: iteration 4 in slot 0, then iteration 3 (slot 2), then 2 (slot 1).
    assert_eq!(h.newest_first(bound), vec![0, 2, 1]);
    assert_eq!(h.oldest_first(bound), vec![1, 2, 0]);
}

#[test]
fn recursion_early_iterations() {
    let mut h = History::new(6);
    let (slot, bound) = h.store();
    assert_eq!((slot, bound), (0, 1));
    assert_eq!(h.newest_first(bound), vec![0]);
    assert_eq!(h.oldest_first(bound), vec![0]);
    let (slot, bound) = h.store();
    assert_eq!((slot, bound), (1, 2));
    assert_eq!(h.newest_first(bound), vec![1, 0]);
    assert_eq!(h.oldest_first(bound), vec![0, 1]);
}

#[test]
fn single_slot_history() {
    let mut h = History::new(1);
    for _ in 0..5 {
        assert_eq!(h.store(), (0, 1));
        assert_eq!(h.newest_first(1), vec![0]);
    }
}

#[test]
fn test_max_iterations_limit() {
    // With a limit of 5, the run stops at the end of iteration 5.
    for k in 1..5 {
        assert!(!iteration_limit_reached(5, k));
    }
    assert!(iteration_limit_reached(5, 5));
    assert!(iteration_limit_reached(5, 6));
    // 0 means no limit.
    assert!(!iteration_limit_reached(0, 1_000_000));
    // A negative limit stops after the first iteration.
    assert!(iteration_limit_reached(-3, 1));
}

#[test]
fn delta_record_slots() {
    assert_eq!(delta_slot(0, 0), None);
    assert_eq!(delta_slot(9, 0), None);
    assert_eq!(delta_slot(0, 3), Some((false, 0)));
    assert_eq!(delta_slot(1, 1), Some((true, 0)));
    assert_eq!(delta_slot(2, 3), Some((false, 2)));
    assert_eq!(delta_slot(3, 3), Some((true, 0)));
    assert_eq!(delta_slot(7, 3), Some((true, 1)));
    // Iteration 7 reads what iteration 4 wrote into slot 4 % 3 == 1.
    assert_eq!(delta_slot(4, 3).unwrap().1, delta_slot(7, 3).unwrap().1);
}

#[test]
fn initial_point_outcome() {
    assert_eq!(initial_outcome(true), Some(2));
    assert_eq!(code_to_status(2), Ok(Convergence::AlreadyMinimized));
    assert_eq!(initial_outcome(false), None);
}

#[test]
fn iteration_outcomes() {
    assert_eq!(iteration_outcome(-998, true, true, true, true), Some(-998));
    assert_eq!(code_to_status(-998), Err(LbfgsError::MaximumLineSearch));
    assert_eq!(iteration_outcome(2, false, true, true, true), Some(-1021));
    assert_eq!(code_to_status(-1021), Err(LbfgsError::Canceled));
    assert_eq!(iteration_outcome(2, true, true, true, true), Some(0));
    assert_eq!(code_to_status(0), Ok(Convergence::Gradient));
    assert_eq!(iteration_outcome(2, true, false, true, true), Some(1));
    assert_eq!(code_to_status(1), Ok(Convergence::Delta));
    assert_eq!(iteration_outcome(2, true, false, false, true), Some(-997));
    assert_eq!(code_to_status(-997), Err(LbfgsError::MaximumIteration));
    assert_eq!(iteration_outcome(2, true, false, false, false), None);
}

#[test]
fn cancel_at_first_iteration() {
    // The callback stops the run after the first line search (which took 1 evaluation).
    let h = History::new(6);
    assert_eq!(h.current_iteration(), 1);
    let code = iteration_outcome(1, false, false, false, false).unwrap();
    assert_eq!(code_to_status(code), Err(LbfgsError::Canceled));
}

#[test]
fn cancel_at_second_iteration() {
    let mut h = History::new(6);
    h.store();
    assert_eq!(h.current_iteration(), 2);
    let code = iteration_outcome(2, false, false, false, false).unwrap();
    assert_eq!(code_to_status(code), Err(LbfgsError::Canceled));
}

#[test]
fn cancel_whatever_the_other_tests_say() {
    for ls in [0, 1, 2, 7] {
        for converged in [false, true] {
            let code = iteration_outcome(ls, false, converged, true, true).unwrap();
            assert_eq!(code_to_status(code), Err(LbfgsError::Canceled));
        }
    }
}
