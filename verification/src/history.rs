//! Bookkeeping of the limited-memory history: which slot of the circular
//! buffer receives the correction pair of each iteration, and in which order
//! the two-loop recursion visits the stored pairs.

use vstd::prelude::*;

verus! {

/// The slot of a circular buffer of `m` slots that receives the correction
/// pair of iteration `i` (iterations count from 1).
pub open spec fn slot_of(i: int, m: int) -> int {
    (i - 1) % m
}

/// The smaller of two integers.
pub open spec fn spec_min(a: int, b: int) -> int {
    if a <= b { a } else { b }
}

/// The circular buffer of `m` correction pairs and the iteration counter.
pub struct History {
    m: usize,
    k: usize,
    end: usize,
}

impl History {
    #[verifier::type_invariant]
    spec fn inv(self) -> bool {
        &&& self.m > 0
        &&& self.k >= 1
        &&& self.end == slot_of(self.k as int, self.m as int)
    }

    /// The number of slots.
    pub closed spec fn memory(self) -> nat {
        self.m as nat
    }

    /// The current iteration (from 1).
    pub closed spec fn iteration(self) -> nat {
        self.k as nat
    }

    /// An empty history of `m` slots, at iteration 1.
    pub fn new(m: usize) -> (r: History)
        requires
            m > 0,
        ensures
            r.memory() == m,
            r.iteration() == 1,
    {
        proof {
            vstd::arithmetic::div_mod::lemma_fundamental_div_mod_converse(0, m as int, 0, 0);
        }
        History { m, k: 1, end: 0 }
    }

    /// Returns the current iteration.
    pub fn current_iteration(&self) -> (r: usize)
        ensures
            r == self.iteration(),
            r >= 1,
    {
        proof { use_type_invariant(self); }
        self.k
    }

    /// Returns the number of slots.
    pub fn slots(&self) -> (r: usize)
        ensures
            r == self.memory(),
            r > 0,
    {
        proof { use_type_invariant(self); }
        self.m
    }

    /// Records the correction pair of the current iteration: returns the slot
    /// that receives it and the number of stored pairs that the next search
    /// direction uses, then moves to the next iteration.
    pub fn store(&mut self) -> (r: (usize, usize))
        requires
            old(self).iteration() < usize::MAX,
        ensures
            r.0 == slot_of(old(self).iteration() as int, old(self).memory() as int),
            r.0 < old(self).memory(),
            r.1 == spec_min(old(self).memory() as int, old(self).iteration() as int),
            final(self).memory() == old(self).memory(),
            final(self).iteration() == old(self).iteration() + 1,
    {
        proof { use_type_invariant(&*self); }
        let m = self.m;
        let k = self.k;
        let slot = self.end;
        let bound = if m <= k { m } else { k };
        let next = if slot + 1 == m { 0 } else { slot + 1 };
        proof {
            lemma_next_slot(k as int, m as int);
        }
        *self = History { m, k: k + 1, end: next };
        (slot, bound)
    }

    /// The slots that the first (backward) loop of the two-loop recursion
    /// visits, in order: the pairs of the last `bound` iterations, newest first.
    pub fn newest_first(&self, bound: usize) -> (r: Vec<usize>)
        requires
            bound <= self.memory(),
            bound < self.iteration(),
        ensures
            r.len() == bound,
            forall|t: int| 0 <= t < bound ==> r[t] == #[trigger] slot_of(self.iteration() - 1 - t, self.memory() as int),
            forall|t: int| 0 <= t < bound ==> r[t] < self.memory(),
    {
        proof { use_type_invariant(self); }
        let m = self.m;
        let mut r: Vec<usize> = Vec::new();
        let mut j = self.end;
        let mut i: usize = 0;
        while i < bound
            invariant
                i <= bound,
                bound < self.k,
                m == self.m,
                m > 0,
                j < m,
                j == slot_of(self.k - i, m as int),
                r.len() == i,
                forall|t: int| 0 <= t < i ==> r[t] == #[trigger] slot_of(self.k - 1 - t, m as int),
                forall|t: int| 0 <= t < i ==> r[t] < m,
            decreases bound - i,
        {
            proof {
                lemma_prev_slot((self.k - i) as int, m as int);
            }
            j = if j == 0 { m - 1 } else { j - 1 };
            r.push(j);
            i = i + 1;
        }
        r
    }

    /// The slots that the second (forward) loop of the two-loop recursion
    /// visits, in order: the same pairs as [`History::newest_first`], oldest first.
    pub fn oldest_first(&self, bound: usize) -> (r: Vec<usize>)
        requires
            bound <= self.memory(),
            bound < self.iteration(),
        ensures
            r.len() == bound,
            forall|t: int| 0 <= t < bound ==> r[t] == #[trigger] slot_of(self.iteration() - bound + t, self.memory() as int),
            forall|t: int| 0 <= t < bound ==> r[t] < self.memory(),
    {
        let back = self.newest_first(bound);
        let mut r: Vec<usize> = Vec::new();
        let mut i: usize = bound;
        while i > 0
            invariant
                i <= bound,
                back.len() == bound,
                r.len() == bound - i,
                forall|t: int| 0 <= t < bound ==> back[t] == #[trigger] slot_of(self.iteration() - 1 - t, self.memory() as int),
                forall|t: int| 0 <= t < bound ==> back[t] < self.memory(),
                forall|t: int| 0 <= t < bound - i ==> r[t] == back[bound - 1 - t],
            decreases i,
        {
            i = i - 1;
            r.push(back[i]);
        }
        assert forall|t: int| 0 <= t < bound implies r[t] == #[trigger] slot_of(self.iteration() - bound + t, self.memory() as int) by {
            assert(r[t] == back[bound - 1 - t]);
            assert(self.iteration() - 1 - (bound - 1 - t) == self.iteration() - bound + t);
        }
        r
    }
}

/// The pair stored at iteration `i` keeps its slot until iteration `i + m`:
/// no iteration in between writes that slot, and iteration `i + m` reuses it.
/// So the `min(m, k)` pairs that the recursion reads are the latest ones, intact.
pub proof fn lemma_pair_lifetime(m: int, i: int, j: int)
    requires
        m > 0,
        i < j < i + m,
    ensures
        slot_of(j, m) != slot_of(i, m),
        slot_of(i + m, m) == slot_of(i, m),
{
    let qi = (i - 1) / m;
    let si = (i - 1) % m;
    let qj = (j - 1) / m;
    let sj = (j - 1) % m;
    vstd::arithmetic::div_mod::lemma_fundamental_div_mod(i - 1, m);
    vstd::arithmetic::div_mod::lemma_fundamental_div_mod(j - 1, m);
    vstd::arithmetic::div_mod::lemma_mod_bound(i - 1, m);
    vstd::arithmetic::div_mod::lemma_mod_bound(j - 1, m);
    if si == sj {
        assert(j - i == (qj - qi) * m) by (nonlinear_arith)
            requires i - 1 == m * qi + si, j - 1 == m * qj + sj, si == sj;
        assert(false) by (nonlinear_arith)
            requires j - i == (qj - qi) * m, 0 < j - i < m, m > 0;
    }
    assert(i + m - 1 == (qi + 1) * m + si) by (nonlinear_arith)
        requires i - 1 == m * qi + si;
    vstd::arithmetic::div_mod::lemma_fundamental_div_mod_converse(i + m - 1, m, qi + 1, si);
}

proof fn lemma_next_slot(k: int, m: int)
    requires
        m > 0,
        k >= 1,
    ensures
        (if slot_of(k, m) + 1 == m { 0 } else { slot_of(k, m) + 1 }) == slot_of(k + 1, m),
{
    let q = (k - 1) / m;
    let s = (k - 1) % m;
    vstd::arithmetic::div_mod::lemma_fundamental_div_mod(k - 1, m);
    vstd::arithmetic::div_mod::lemma_mod_bound(k - 1, m);
    assert(m * q == q * m) by (nonlinear_arith);
    if s + 1 == m {
        assert(k == (q + 1) * m + 0) by (nonlinear_arith)
            requires k - 1 == q * m + s, s + 1 == m;
        vstd::arithmetic::div_mod::lemma_fundamental_div_mod_converse(k, m, q + 1, 0);
    } else {
        vstd::arithmetic::div_mod::lemma_fundamental_div_mod_converse(k, m, q, s + 1);
    }
}

proof fn lemma_prev_slot(i: int, m: int)
    requires
        m > 0,
    ensures
        (if slot_of(i, m) == 0 { m - 1 } else { slot_of(i, m) - 1 }) == slot_of(i - 1, m),
{
    let q = (i - 1) / m;
    let s = (i - 1) % m;
    vstd::arithmetic::div_mod::lemma_fundamental_div_mod(i - 1, m);
    vstd::arithmetic::div_mod::lemma_mod_bound(i - 1, m);
    assert(m * q == q * m) by (nonlinear_arith);
    if s == 0 {
        assert(i - 2 == (q - 1) * m + (m - 1)) by (nonlinear_arith)
            requires i - 1 == q * m + s, s == 0;
        vstd::arithmetic::div_mod::lemma_fundamental_div_mod_converse(i - 2, m, q - 1, m - 1);
    } else {
        vstd::arithmetic::div_mod::lemma_fundamental_div_mod_converse(i - 2, m, q, s - 1);
    }
}

} // verus!
