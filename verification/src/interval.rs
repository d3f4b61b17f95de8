//! The period of a time stream, kept within the bounds that the service
//! allows.

use vstd::prelude::*;
use vstd::string::*;
use std::time::Duration;
use crate::clock::{duration_nanos, NANOS_PER_MILLI, NANOS_PER_SEC};
use crate::error::AppError;
use crate::text::{decimal, push_decimal};

verus! {

/// The default period, in seconds.
pub const DEFAULT_STREAM_INTERVAL_SECS: u64 = 1;

/// The shortest period allowed, in milliseconds.
pub const MIN_STREAM_INTERVAL_MILLIS: u64 = 100;

/// The longest period allowed, in seconds.
pub const MAX_STREAM_INTERVAL_SECS: u64 = 3600;

/// The shortest period allowed, in nanoseconds.
pub open spec fn min_interval_nanos() -> nat {
    (MIN_STREAM_INTERVAL_MILLIS * 1_000_000) as nat
}

/// The longest period allowed, in nanoseconds.
pub open spec fn max_interval_nanos() -> nat {
    (MAX_STREAM_INTERVAL_SECS * 1_000_000_000) as nat
}

/// Whether a period of `nanos` nanoseconds is allowed: at least 100 ms and
/// at most 3600 s.
pub open spec fn interval_is_valid(nanos: nat) -> bool {
    min_interval_nanos() <= nanos <= max_interval_nanos()
}

/// Message of the error for a period under the lower bound, of `nanos`
/// nanoseconds.
pub open spec fn short_interval_message(nanos: nat) -> Seq<char> {
    "Stream interval cannot be less than "@ + decimal(MIN_STREAM_INTERVAL_MILLIS as nat) + "ms, got "@
        + decimal(nanos / 1_000_000) + "ms"@
}

/// Message of the error for a period over the upper bound, of `nanos`
/// nanoseconds.
pub open spec fn long_interval_message(nanos: nat) -> Seq<char> {
    "Stream interval cannot exceed "@ + decimal(MAX_STREAM_INTERVAL_SECS as nat) + " seconds, got "@
        + decimal(nanos / 1_000_000_000) + " seconds"@
}

/// The period between two items of a time stream.
#[derive(Debug, PartialEq, Eq)]
pub struct StreamInterval(Duration);

impl View for StreamInterval {
    type V = nat;

    /// The period in nanoseconds.
    closed spec fn view(&self) -> nat {
        duration_nanos(self.0)
    }
}

impl StreamInterval {
    /// Every period is within the bounds.
    #[verifier::type_invariant]
    closed spec fn well_formed(self) -> bool {
        interval_is_valid(duration_nanos(self.0))
    }

    /// The duration that the period holds.
    pub closed spec fn duration(self) -> Duration {
        self.0
    }

    /// Validates `interval`. It is accepted if and only if it is at least
    /// 100 ms and at most 3600 s long. A shorter one is refused with the
    /// length in whole milliseconds, a longer one with the length in whole
    /// seconds.
    pub fn new(interval: Duration) -> (r: Result<StreamInterval, AppError>)
        ensures
            r is Ok <==> interval_is_valid(duration_nanos(interval)),
            r is Ok ==> r->Ok_0.duration() == interval && r->Ok_0@ == duration_nanos(interval),
            r is Err ==> r->Err_0 is ValidationError,
            duration_nanos(interval) < min_interval_nanos() ==> r is Err
                && r->Err_0.message_text() == short_interval_message(duration_nanos(interval)),
            duration_nanos(interval) > max_interval_nanos() ==> r is Err
                && r->Err_0.message_text() == long_interval_message(duration_nanos(interval)),
    {
        let nanos: u128 = interval.as_nanos();
        if nanos < (MIN_STREAM_INTERVAL_MILLIS as u128) * NANOS_PER_MILLI {
            let mut message = String::from_str("Stream interval cannot be less than ");
            push_decimal(&mut message, MIN_STREAM_INTERVAL_MILLIS as u128);
            message.append("ms, got ");
            push_decimal(&mut message, nanos / NANOS_PER_MILLI);
            message.append("ms");
            return Err(AppError::validation(message.as_str()));
        }
        if nanos > (MAX_STREAM_INTERVAL_SECS as u128) * NANOS_PER_SEC {
            let mut message = String::from_str("Stream interval cannot exceed ");
            push_decimal(&mut message, MAX_STREAM_INTERVAL_SECS as u128);
            message.append(" seconds, got ");
            push_decimal(&mut message, nanos / NANOS_PER_SEC);
            message.append(" seconds");
            return Err(AppError::validation(message.as_str()));
        }
        Ok(StreamInterval(interval))
    }

    /// The period as a duration, which is within the bounds.
    pub fn as_duration(&self) -> (d: Duration)
        ensures
            d == self.duration(),
            duration_nanos(d) == self@,
            interval_is_valid(self@),
    {
        proof {
            use_type_invariant(self);
        }
        self.0
    }

    /// The period in whole milliseconds.
    pub fn as_millis(&self) -> (millis: u128)
        ensures
            millis == self@ / 1_000_000,
            100 <= millis <= 3_600_000,
    {
        proof {
            use_type_invariant(self);
        }
        self.0.as_nanos() / NANOS_PER_MILLI
    }
}

impl Clone for StreamInterval {
    fn clone(&self) -> (r: StreamInterval)
        ensures
            r.duration() == self.duration(),
            r@ == self@,
    {
        proof {
            use_type_invariant(self);
        }
        StreamInterval(self.0)
    }
}

impl Default for StreamInterval {
    /// The default period: one second.
    fn default() -> (r: StreamInterval)
        ensures
            r@ == 1_000_000_000,
    {
        StreamInterval(Duration::from_secs(DEFAULT_STREAM_INTERVAL_SECS))
    }
}

} // verus!
