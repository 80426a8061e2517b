//! Timing one run of an operation, and the fastest of several runs.

use std::time::{Duration, Instant};
use vstd::prelude::*;
use crate::clock::nanos_of;
use crate::estimate::Iterations;
use crate::fastest::{is_fastest_of, keep_faster, lemma_faster_of_extends};

verus! {

/// Measures the execution time of a function once and returns the duration.
///
/// The clock is read right before the call and right after it. The value that
/// `f` returns is dropped. What the clock shows is not known beforehand, so
/// the contract says only that `f` has run to its end and that the time taken
/// is not negative, which holds of every [`Duration`].
#[inline]
pub fn bench_once<F, T>(f: F) -> (elapsed: Duration) where F: FnOnce() -> T
    requires
        f.requires(()),
    ensures
        exists|out: T| f.ensures((), out),
        nanos_of(elapsed) >= 0,
{
    let instant = Instant::now();
    f();
    instant.elapsed()
}

/// Measures a function's execution time `iterations` times, one run after the
/// other, and returns the lowest value, thereby minimizing the influence of
/// the operating system on the result.
///
/// The result is the minimum of as many samples as there were iterations. With
/// no iteration asked for there is no sample and no result; the function is
/// then not called at all, and nothing is asked of it.
#[inline]
pub fn bench_times<F, T>(iterations: Iterations, mut f: F) -> (best: Option<Duration>) where
    F: FnMut() -> T,
    requires
        iterations > 0 ==> f.requires(()),
    ensures
        best is None <==> iterations == 0,
        exists|samples: Seq<Duration>|
            samples.len() == iterations && #[trigger] is_fastest_of(best, samples),
        iterations > 0 ==> exists|out: T| f.ensures((), out),
{
    let ghost op = f;
    let ghost mut samples: Seq<Duration> = Seq::empty();
    let mut best: Option<Duration> = None;
    let mut done: Iterations = 0;
    while done < iterations
        invariant
            done <= iterations,
            f == op,
            iterations > 0 ==> op.requires(()),
            samples.len() == done,
            is_fastest_of(best, samples),
            done > 0 ==> exists|out: T| op.ensures((), out),
        decreases iterations - done,
    {
        let sample = bench_once(&mut f);
        proof {
            lemma_faster_of_extends(best, samples, sample);
            samples = samples.push(sample);
        }
        best = keep_faster(best, sample);
        done = done + 1;
    }
    best
}

} // verus!
