//! How many runs of an operation fit into a time budget.

use std::time::Duration;
use vstd::prelude::*;
use vstd::arithmetic::div_mod::{lemma_div_multiples_vanish, lemma_fundamental_div_mod, lemma_mod_bound};
use crate::clock::nanos_of;

verus! {

/// A count of runs.
pub type Iterations = u128;

/// The number of runs of `single_run` nanoseconds each that fit into a budget
/// of `total` nanoseconds: the quotient, rounded down.
///
/// A run that takes no measurable time fits any number of times, so the count
/// saturates at [`Iterations::MAX`].
pub open spec fn runs_within(single_run: nat, total: nat) -> nat {
    if single_run == 0 {
        Iterations::MAX as nat
    } else {
        total / single_run
    }
}

/// The estimate on plain nanosecond counts.
#[inline]
pub fn iterations_for_nanos(single_run: u128, total: u128) -> (count: Iterations)
    ensures
        count == runs_within(single_run as nat, total as nat),
{
    if single_run == 0 {
        Iterations::MAX
    } else {
        total / single_run
    }
}

/// Calculates the number of runs of length `single_run` that can be executed
/// within the time limit `total`.
///
/// Both durations are taken in nanoseconds, so nothing is lost to rounding
/// before the division. A `single_run` of zero gives [`Iterations::MAX`].
#[inline]
pub fn calc_iterations(single_run: Duration, total: Duration) -> (count: Iterations)
    ensures
        count == runs_within(nanos_of(single_run), nanos_of(total)),
        nanos_of(single_run) == 0 ==> count == Iterations::MAX,
        nanos_of(single_run) > 0 ==> count == nanos_of(total) / nanos_of(single_run),
{
    iterations_for_nanos(single_run.as_nanos(), total.as_nanos())
}

/// The estimate is the largest count whose runs fit into the budget: that many
/// runs fit, and one more would not.
pub proof fn lemma_runs_fit(single_run: nat, total: nat)
    requires
        single_run > 0,
    ensures
        runs_within(single_run, total) * single_run <= total,
        total < (runs_within(single_run, total) + 1) * single_run,
{
    let d = single_run as int;
    let t = total as int;
    lemma_fundamental_div_mod(t, d);
    lemma_mod_bound(t, d);
    assert((t / d) * d == d * (t / d)) by (nonlinear_arith);
    assert((t / d + 1) * d == d * (t / d) + d) by (nonlinear_arith);
}

/// A budget of a whole number of runs holds exactly that many.
pub proof fn lemma_budget_of_whole_runs(single_run: nat, runs: nat)
    requires
        single_run > 0,
    ensures
        runs_within(single_run, runs * single_run) == runs,
{
    lemma_div_multiples_vanish(runs as int, single_run as int);
    assert(runs * single_run == single_run * runs) by (nonlinear_arith);
}

/// A budget as long as one run holds one run.
pub proof fn lemma_budget_of_one_run(single_run: nat)
    requires
        single_run > 0,
    ensures
        runs_within(single_run, single_run) == 1,
{
    lemma_budget_of_whole_runs(single_run, 1);
}

/// A budget ten times as long as one run holds ten runs.
pub proof fn lemma_budget_of_ten_runs(single_run: nat)
    requires
        single_run > 0,
    ensures
        runs_within(single_run, 10 * single_run) == 10,
{
    lemma_budget_of_whole_runs(single_run, 10);
}

/// An empty budget holds no run.
pub proof fn lemma_empty_budget(single_run: nat)
    requires
        single_run > 0,
    ensures
        runs_within(single_run, 0) == 0,
{
    lemma_budget_of_whole_runs(single_run, 0);
}

} // verus!
