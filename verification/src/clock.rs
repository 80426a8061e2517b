//! The standard library's clock, as far as this crate relies on it.
//!
//! Nothing in this file is proved. Each item states what the rest of the crate
//! takes for granted about `std::time`.

use std::time::{Duration, Instant};
use vstd::prelude::*;

verus! {

/// A point in time as [`std::time::Instant`] records it. The verifier sees
/// nothing inside a value of this type; it is only carried from the start of a
/// measurement to its end.
#[verifier::external_type_specification]
#[verifier::external_body]
pub struct ExInstant(Instant);

/// The whole length of a [`Duration`], counted in nanoseconds.
///
/// A `Duration` is opaque to the verifier. Its length is known only through
/// this function, whose value [`Duration::as_nanos`] is trusted to return.
pub uninterp spec fn nanos_of(d: Duration) -> nat;

/// [`Instant::now`] reads the monotonic clock. Nothing is claimed of the instant
/// that comes back.
pub assume_specification[ Instant::now ]() -> (now: Instant);

/// [`Instant::elapsed`] reads the clock again and returns the time that has
/// passed since `start`. Nothing is claimed of how long that is: it depends on
/// the machine and on the moment.
pub assume_specification[ Instant::elapsed ](start: &Instant) -> (elapsed: Duration);

/// [`Duration::as_nanos`] returns the total number of nanoseconds that `d`
/// spans. The claim is that this number depends on `d` alone, and it is what
/// [`nanos_of`] stands for.
pub assume_specification[ Duration::as_nanos ](d: &Duration) -> (nanos: u128)
    ensures
        nanos == nanos_of(*d),
;

} // verus!
