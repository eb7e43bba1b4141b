//! The model of `std::time::Duration` that the contracts of this crate use.
use std::time::Duration;
use vstd::prelude::*;

verus! {

/// The length of a duration in nanoseconds, the number that
/// `Duration::as_nanos` reports for it.
pub uninterp spec fn duration_nanos(d: Duration) -> nat;

/// `Duration::from_millis`, which vstd leaves unspecified. Trusted, not
/// proved: the duration it returns lasts `millis` milliseconds, a million
/// nanoseconds each.
pub assume_specification[ Duration::from_millis ](millis: u64) -> (d: Duration)
    ensures
        duration_nanos(d) == millis * 1_000_000,
;

} // verus!
