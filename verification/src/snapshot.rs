//! Instants of UTC time and their RFC 3339 text.

use vstd::prelude::*;
use vstd::string::*;
use chrono::{DateTime, ParseError, Utc};
use crate::error::AppError;

verus! {

/// Seconds since the Unix epoch of the earliest instant that can be held:
/// the first second of the year -262143.
pub const MIN_TIMESTAMP_SECS: i64 = -8_334_601_228_800;

/// Seconds since the Unix epoch of the latest instant that can be held: the
/// last second of the year 262142.
pub const MAX_TIMESTAMP_SECS: i64 = 8_210_266_876_799;

/// Whether `secs` seconds since the Unix epoch and `nanos` nanoseconds into
/// that second name an instant that can be held. The nanoseconds may reach
/// into a second thousand million to stand for a leap second, but only in
/// the last second of a minute.
pub open spec fn instant_is_valid(secs: int, nanos: int) -> bool {
    &&& MIN_TIMESTAMP_SECS <= secs <= MAX_TIMESTAMP_SECS
    &&& 0 <= nanos < 2_000_000_000
    &&& nanos >= 1_000_000_000 ==> secs % 60 == 59
}

/// The RFC 3339 text that chrono writes for the instant `secs` seconds
/// after the Unix epoch and `nanos` nanoseconds into that second, in UTC.
pub uninterp spec fn rfc3339_text(secs: int, nanos: int) -> Seq<char>;

/// The instant that chrono reads from `text` as RFC 3339, as seconds since
/// the Unix epoch and nanoseconds into that second, and `None` where it
/// refuses the text.
pub uninterp spec fn rfc3339_instant(text: Seq<char>) -> Option<(int, int)>;

/// The words in front of the reason for which a timestamp was refused.
pub open spec fn invalid_timestamp_prefix() -> Seq<char> {
    "Invalid RFC3339 timestamp: "@
}

/// chrono's error for a text that it could not read as a date and time.
#[verifier::external_type_specification]
#[verifier::external_body]
pub struct ExParseError(ParseError);

/// Reads the clock through chrono's `Utc::now` and takes the reading apart
/// with `DateTime::timestamp` and `DateTime::timestamp_subsec_nanos`. The
/// reading is an instant that chrono can hold; nothing else is known of it.
/// chrono panics where the system clock stands before the Unix epoch.
#[verifier::external_body]
fn read_utc_clock() -> (r: (i64, u32))
    ensures
        instant_is_valid(r.0 as int, r.1 as int),
{
    let now = Utc::now();
    (now.timestamp(), now.timestamp_subsec_nanos())
}

/// Writes an instant as RFC 3339 text: chrono's `DateTime::from_timestamp`
/// makes the date and time, which succeeds on every valid instant, and
/// `DateTime::to_rfc3339` writes it.
#[verifier::external_body]
fn write_rfc3339(secs: i64, nanos: u32) -> (text: String)
    requires
        instant_is_valid(secs as int, nanos as int),
    ensures
        text@ == rfc3339_text(secs as int, nanos as int),
{
    DateTime::from_timestamp(secs, nanos).unwrap().to_rfc3339()
}

/// Reads RFC 3339 text with chrono's `DateTime::parse_from_rfc3339`, moves
/// the result to UTC and takes it apart as `read_utc_clock` does. What is
/// read is a valid instant.
#[verifier::external_body]
fn read_rfc3339(text: &str) -> (r: Result<(i64, u32), ParseError>)
    ensures
        r is Ok <==> rfc3339_instant(text@) is Some,
        r is Ok ==> rfc3339_instant(text@) == Some((r->Ok_0.0 as int, r->Ok_0.1 as int)),
        r is Ok ==> instant_is_valid(r->Ok_0.0 as int, r->Ok_0.1 as int),
{
    match DateTime::parse_from_rfc3339(text) {
        Ok(parsed) => {
            let utc = parsed.with_timezone(&Utc);
            Ok((utc.timestamp(), utc.timestamp_subsec_nanos()))
        },
        Err(e) => Err(e),
    }
}

/// An instant of UTC time.
#[derive(Debug, PartialEq, Eq, Structural)]
pub struct TimeSnapshot {
    secs: i64,
    nanos: u32,
}

impl TimeSnapshot {
    /// Every snapshot is a valid instant.
    #[verifier::type_invariant]
    closed spec fn well_formed(self) -> bool {
        instant_is_valid(self.secs as int, self.nanos as int)
    }

    /// Whole seconds from the Unix epoch to the instant.
    pub closed spec fn secs(self) -> int {
        self.secs as int
    }

    /// Nanoseconds from the start of that second to the instant.
    pub closed spec fn nanos(self) -> int {
        self.nanos as int
    }

    /// The instant at which the call is made.
    pub fn now() -> (s: TimeSnapshot)
        ensures
            instant_is_valid(s.secs(), s.nanos()),
    {
        let (secs, nanos) = read_utc_clock();
        TimeSnapshot { secs, nanos }
    }

    /// The instant `secs` seconds after the Unix epoch and `nanos`
    /// nanoseconds into that second, where that is a valid instant.
    pub fn from_timestamp(secs: i64, nanos: u32) -> (r: Option<TimeSnapshot>)
        ensures
            r is Some <==> instant_is_valid(secs as int, nanos as int),
            r is Some ==> r->0.secs() == secs && r->0.nanos() == nanos,
    {
        if secs < MIN_TIMESTAMP_SECS || secs > MAX_TIMESTAMP_SECS || nanos >= 2_000_000_000 {
            return None;
        }
        if nanos >= 1_000_000_000 {
            let rem: i64 = secs % 60;
            let second: i64 = if rem < 0 {
                rem + 60
            } else {
                rem
            };
            if second != 59 {
                return None;
            }
        }
        Some(TimeSnapshot { secs, nanos })
    }

    /// The error for a timestamp that was refused for the reason `detail`.
    pub fn invalid_timestamp_error(detail: &str) -> (e: AppError)
        ensures
            e is ValidationError,
            e.message_text() == invalid_timestamp_prefix() + detail@,
    {
        let message = String::from_str("Invalid RFC3339 timestamp: ").concat(detail);
        AppError::validation(message.as_str())
    }

    /// Reads an RFC 3339 timestamp. The result is the instant that chrono
    /// reads from `text`, whatever the offset it is written with; where
    /// chrono refuses the text, a validation error whose message is
    /// "Invalid RFC3339 timestamp: " and chrono's reason.
    pub fn from_rfc3339(text: &str) -> (r: Result<TimeSnapshot, AppError>)
        ensures
            r is Ok <==> rfc3339_instant(text@) is Some,
            r is Ok ==> rfc3339_instant(text@) == Some((r->Ok_0.secs(), r->Ok_0.nanos())),
            r is Err ==> r->Err_0 is ValidationError && exists|detail: Seq<char>|
                r->Err_0.message_text() == invalid_timestamp_prefix() + detail,
    {
        match read_rfc3339(text) {
            Ok((secs, nanos)) => Ok(TimeSnapshot { secs, nanos }),
            Err(e) => {
                let detail = e.to_string();
                Err(Self::invalid_timestamp_error(detail.as_str()))
            },
        }
    }

    /// The instant as RFC 3339 text.
    pub fn to_rfc3339(&self) -> (text: String)
        ensures
            text@ == rfc3339_text(self.secs(), self.nanos()),
    {
        proof {
            use_type_invariant(self);
        }
        write_rfc3339(self.secs, self.nanos)
    }

    /// Whole seconds from the Unix epoch to the instant.
    pub fn timestamp(&self) -> (secs: i64)
        ensures
            secs == self.secs(),
            MIN_TIMESTAMP_SECS <= secs <= MAX_TIMESTAMP_SECS,
    {
        proof {
            use_type_invariant(self);
        }
        self.secs
    }

    /// Nanoseconds from the start of the second to the instant.
    pub fn subsec_nanos(&self) -> (nanos: u32)
        ensures
            nanos == self.nanos(),
            instant_is_valid(self.secs(), self.nanos()),
    {
        proof {
            use_type_invariant(self);
        }
        self.nanos
    }
}

impl Clone for TimeSnapshot {
    fn clone(&self) -> (r: TimeSnapshot)
        ensures
            r == *self,
    {
        proof {
            use_type_invariant(self);
        }
        TimeSnapshot { secs: self.secs, nanos: self.nanos }
    }
}

} // verus!
