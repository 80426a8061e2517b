//! The fastest of a run of samples, kept one sample at a time.

use std::time::Duration;
use vstd::prelude::*;
use crate::clock::nanos_of;

verus! {

/// The running minimum after one more sample: `sample` where it is strictly
/// shorter than `best` or where there is no `best` yet, else `best`.
pub open spec fn faster_of(best: Option<Duration>, sample: Duration) -> Option<Duration> {
    match best {
        Some(b) => if nanos_of(b) <= nanos_of(sample) {
            Some(b)
        } else {
            Some(sample)
        },
        None => Some(sample),
    }
}

/// Whether `best` is the minimum of `samples`: nothing where there is no
/// sample, else the first of the samples that no other sample undercuts.
pub open spec fn is_fastest_of(best: Option<Duration>, samples: Seq<Duration>) -> bool {
    match best {
        Some(b) => exists|i: int|
            0 <= i < samples.len() && is_first_minimum_at(samples, i) && #[trigger] samples[i] == b,
        None => samples.len() == 0,
    }
}

/// Whether the sample at `i` is as short as any sample, and strictly shorter
/// than every sample before it.
pub open spec fn is_first_minimum_at(samples: Seq<Duration>, i: int) -> bool {
    &&& forall|j: int|
        0 <= j < samples.len() ==> nanos_of(samples[i]) <= nanos_of(#[trigger] samples[j])
    &&& forall|j: int| 0 <= j < i ==> nanos_of(samples[i]) < nanos_of(#[trigger] samples[j])
}

/// Takes one more sample into the running minimum. Of two samples of the same
/// length the earlier one stays.
pub fn keep_faster(best: Option<Duration>, sample: Duration) -> (kept: Option<Duration>)
    ensures
        kept == faster_of(best, sample),
{
    match best {
        Some(b) => {
            if b.as_nanos() <= sample.as_nanos() {
                Some(b)
            } else {
                Some(sample)
            }
        },
        None => Some(sample),
    }
}

/// Keeping the faster of the minimum so far and a new sample gives the minimum
/// of the samples with the new one added.
pub proof fn lemma_faster_of_extends(
    best: Option<Duration>,
    samples: Seq<Duration>,
    sample: Duration,
)
    requires
        is_fastest_of(best, samples),
    ensures
        is_fastest_of(faster_of(best, sample), samples.push(sample)),
{
    let more = samples.push(sample);
    match best {
        Some(b) => {
            let i = choose|i: int|
                0 <= i < samples.len() && is_first_minimum_at(samples, i) && #[trigger] samples[i]
                    == b;
            if nanos_of(b) <= nanos_of(sample) {
                assert(is_first_minimum_at(more, i));
                assert(more[i] == b);
            } else {
                let last = samples.len() as int;
                assert(is_first_minimum_at(more, last));
                assert(more[last] == sample);
            }
        },
        None => {
            assert(is_first_minimum_at(more, 0));
            assert(more[0] == sample);
        },
    }
}

/// A run of samples has one minimum: its place among the samples is fixed, and
/// so is the sample itself.
pub proof fn lemma_fastest_is_unique(
    first: Option<Duration>,
    second: Option<Duration>,
    samples: Seq<Duration>,
)
    requires
        is_fastest_of(first, samples),
        is_fastest_of(second, samples),
    ensures
        first == second,
{
    if let Some(a) = first {
        if let Some(b) = second {
            let i = choose|i: int|
                0 <= i < samples.len() && is_first_minimum_at(samples, i) && #[trigger] samples[i]
                    == a;
            let j = choose|j: int|
                0 <= j < samples.len() && is_first_minimum_at(samples, j) && #[trigger] samples[j]
                    == b;
            if i < j {
                assert(nanos_of(samples[j]) < nanos_of(samples[i]));
                assert(nanos_of(samples[i]) <= nanos_of(samples[j]));
            } else if j < i {
                assert(nanos_of(samples[i]) < nanos_of(samples[j]));
                assert(nanos_of(samples[j]) <= nanos_of(samples[i]));
            }
        }
    }
}

} // verus!
