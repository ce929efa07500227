# liblbfgs_compliant_rs

L-BFGS minimization (with OWL-QN for L1 regularization), split in two:

- `src/` — the verified library (Verus). It holds the control logic of the
  optimizer, with contracts and proofs:
  - `status.rs`: the line-search, convergence and error enums, their status
    codes and messages, and the reading of a status code (`code_to_status`);
  - `params.rs`: parameter validation in the optimizer's order of checks and
    the choice of the line-search routine (`validate_params`);
  - `history.rs`: the circular buffer of correction pairs and the visiting
    order of the two-loop recursion (`History`);
  - `stopping.rs`: the iteration limit, the record of past values read by the
    delta-based test, and the order of the stopping tests;
  - `linesearch.rs`: the decision rules of the backtracking searches, of the
    More-Thuente search (`MoreThuenteState`) and of its trial-step update.
- `app/` — the floating-point work, which Verus cannot hold: vector
  arithmetic, the OWL-QN pseudo-gradient, the interpolations of the line
  searches, the main loop and the public `lbfgs` function. The status of the
  run, the parameter checks, the bookkeeping of the history and of past
  values, the stopping tests and the line-search verdicts go through the
  verified library, fed with the outcomes of the floating-point comparisons.
  What stays in `app/` are choices between two floating-point candidates: which
  interpolant gives the next trial step, the clamping and the bisection of the
  More-Thuente step.
- `tests/` — tests of the library on concrete values.
