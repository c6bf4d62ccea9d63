//! What the library relies on from the standard clock types.
//!
//! A `Duration` is known to the proofs by its length in nanoseconds. Readings
//! of a clock are taken as they come: no contract says anything about them.

use std::time::Duration;
use std::time::Instant;
use std::time::SystemTime;
use std::time::SystemTimeError;
use vstd::prelude::*;

verus! {

/// The length of a duration in whole nanoseconds, as `Duration::as_nanos`
/// reports it.
pub uninterp spec fn duration_nanos(d: Duration) -> nat;

/// A reading of the monotonic clock of the standard library.
#[verifier::external_type_specification]
#[verifier::external_body]
pub struct ExInstant(Instant);

/// One more than the nanoseconds of the longest duration, `Duration::MAX`.
pub open spec fn nanos_limit() -> nat {
    0x1_0000_0000_0000_0000 * 1_000_000_000
}

/// `Duration::as_nanos` gives the whole length in nanoseconds, which is at
/// most that of `Duration::MAX`: `u64::MAX` seconds and 999,999,999
/// nanoseconds.
pub assume_specification[ Duration::as_nanos ](d: &Duration) -> (r: u128)
    ensures
        r == duration_nanos(*d),
        r < nanos_limit(),
;

/// `Duration::as_micros` gives the whole microseconds of the length.
pub assume_specification[ Duration::as_micros ](d: &Duration) -> (r: u128)
    ensures
        r == duration_nanos(*d) / 1_000,
;

/// `Duration::from_secs` makes the duration of that many seconds.
pub assume_specification[ Duration::from_secs ](secs: u64) -> (r: Duration)
    ensures
        duration_nanos(r) == secs * 1_000_000_000,
;

/// `Duration::from_millis` makes the duration of that many milliseconds.
pub assume_specification[ Duration::from_millis ](millis: u64) -> (r: Duration)
    ensures
        duration_nanos(r) == millis * 1_000_000,
;

/// `Duration::saturating_sub` gives what is left of a duration when another
/// is taken from it, and the duration of no length where nothing is left.
pub assume_specification[ Duration::saturating_sub ](a: Duration, b: Duration) -> (r: Duration)
    ensures
        duration_nanos(r) == if duration_nanos(a) >= duration_nanos(b) {
            duration_nanos(a) - duration_nanos(b)
        } else {
            0
        },
;

/// A duration is copied as it is.
pub assume_specification[ <Duration as Clone>::clone ](d: &Duration) -> (r: Duration)
    ensures
        r == *d,
;

/// An instant is copied as it is.
pub assume_specification[ <Instant as Clone>::clone ](t: &Instant) -> (r: Instant)
    ensures
        r == *t,
;

/// `Instant::now` reads the monotonic clock; nothing is known of the reading.
pub assume_specification[ Instant::now ]() -> (r: Instant)
;

/// `Instant::elapsed` measures the time since the instant; nothing is known
/// of the measurement.
pub assume_specification[ Instant::elapsed ](t: &Instant) -> (r: Duration)
;

/// A reading of the wall clock of the standard library.
#[verifier::external_type_specification]
#[verifier::external_body]
pub struct ExSystemTime(SystemTime);

/// What `SystemTime::duration_since` answers where the earlier time is the
/// later one.
#[verifier::external_type_specification]
#[verifier::external_body]
pub struct ExSystemTimeError(SystemTimeError);

/// `SystemTime::now` reads the wall clock; nothing is known of the reading.
pub assume_specification[ SystemTime::now ]() -> (r: SystemTime)
;

/// `SystemTime::duration_since` measures the time from an earlier reading to
/// this one and fails where the other reading is the later one; nothing is
/// known of either answer.
pub assume_specification[ SystemTime::duration_since ](
    t: &SystemTime,
    earlier: SystemTime,
) -> (r: Result<Duration, SystemTimeError>)
;

/// The start of the Unix epoch, `SystemTime::UNIX_EPOCH`.
#[verifier::external_body]
pub(crate) fn unix_epoch() -> (r: SystemTime)
{
    SystemTime::UNIX_EPOCH
}

/// The time since the Unix epoch by the wall clock, and no time at all where
/// the clock stands before the epoch.
pub(crate) fn since_unix_epoch() -> (r: Duration)
{
    let now = SystemTime::now();
    match now.duration_since(unix_epoch()) {
        Ok(since) => since,
        Err(_) => Duration::from_secs(0),
    }
}

/// A count of microseconds as it fits 64 bits.
pub open spec fn micros_field(nanos: nat) -> u64 {
    ((nanos / 1000) % 0x1_0000_0000_0000_0000) as u64
}

/// The whole microseconds of a duration, as they fit 64 bits.
pub fn micros_of(d: &Duration) -> (r: u64)
    ensures
        r == micros_field(duration_nanos(*d)),
{
    let micros: u128 = d.as_micros();
    (micros % 0x1_0000_0000_0000_0000) as u64
}

/// Sorts the durations with `sort` of the standard slices: the same durations
/// come back, the shorter before the longer.
#[verifier::external_body]
pub(crate) fn sort_durations(durations: &mut Vec<Duration>)
    ensures
        final(durations)@.to_multiset() == old(durations)@.to_multiset(),
        ascending(final(durations)@),
{
    durations.sort();
}

/// No duration in the sequence is followed by a shorter one.
pub open spec fn ascending(durations: Seq<Duration>) -> bool {
    forall|i: int, j: int|
        0 <= i <= j < durations.len() ==> duration_nanos(#[trigger] durations[i])
            <= duration_nanos(#[trigger] durations[j])
}

} // verus!
