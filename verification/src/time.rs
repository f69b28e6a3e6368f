//! Spans of time.

use std::time::Duration;
use vstd::prelude::*;

verus! {

/// The whole of a duration, in nanoseconds.
pub uninterp spec fn duration_nanos(d: Duration) -> nat;

/// `std::time::Duration::from_secs`: that many whole seconds.
pub assume_specification[ Duration::from_secs ](secs: u64) -> (d: Duration)
    ensures
        duration_nanos(d) == secs * 1_000_000_000,
;

/// `std::time::Duration::from_millis`: that many milliseconds.
pub assume_specification[ Duration::from_millis ](millis: u64) -> (d: Duration)
    ensures
        duration_nanos(d) == millis * 1_000_000,
;

} // verus!
