//! What the library takes on trust about `std::time`.

use vstd::prelude::*;
use std::time::{Duration, Instant};

verus! {

/// The length of a `Duration` in nanoseconds: its whole seconds times
/// 1,000,000,000, plus its sub-second nanoseconds.
pub uninterp spec fn duration_nanos(d: Duration) -> nat;

/// Nanoseconds in one millisecond.
pub const NANOS_PER_MILLI: u128 = 1_000_000;

/// Nanoseconds in one second.
pub const NANOS_PER_SEC: u128 = 1_000_000_000;

/// `Duration::as_nanos` returns the total number of nanoseconds that the
/// duration holds.
pub assume_specification[ Duration::as_nanos ](d: &Duration) -> (n: u128)
    ensures
        n == duration_nanos(*d),
;

/// `Duration::from_secs` makes a duration of that many whole seconds and no
/// sub-second part.
pub assume_specification[ Duration::from_secs ](secs: u64) -> (d: Duration)
    ensures
        duration_nanos(d) == secs * 1_000_000_000,
;

/// `std::time::Instant`, a reading of the monotonic clock. Nothing is known
/// of what a value holds.
#[verifier::external_type_specification]
#[verifier::external_body]
pub struct ExInstant(Instant);

/// `Instant::now` reads the monotonic clock; nothing is promised of the
/// reading.
pub assume_specification[ Instant::now ]() -> Instant;

/// `Instant::elapsed` gives the time that has passed since the reading was
/// taken; nothing is promised of its length.
pub assume_specification[ Instant::elapsed ](start: &Instant) -> Duration;

} // verus!
