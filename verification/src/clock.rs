//! The wall clock, read once per request.

use std::time::{Duration, SystemTime, SystemTimeError};
use vstd::prelude::*;

verus! {

/// `std::time::SystemTime`, a point in time as the system clock reports it.
/// Opaque here.
#[verifier::external_type_specification]
#[verifier::external_body]
pub struct ExSystemTime(SystemTime);

/// `std::time::SystemTimeError`, the error of `SystemTime::duration_since`.
/// Opaque here.
#[verifier::external_type_specification]
#[verifier::external_body]
pub struct ExSystemTimeError(SystemTimeError);

/// `SystemTime::now` reads the clock; nothing is claimed of what it reads.
pub assume_specification[ SystemTime::now ]() -> (now: SystemTime)
;

/// The span from `earlier` to `later`, or the error where `earlier` is the
/// later of the two: what `SystemTime::duration_since` returns for them.
pub uninterp spec fn span_since(later: SystemTime, earlier: SystemTime) -> Result<
    Duration,
    SystemTimeError,
>;

/// `SystemTime::duration_since` compares two points in time. What it gives
/// depends on the two alone: [`span_since`].
pub assume_specification[ SystemTime::duration_since ](
    this: &SystemTime,
    earlier: SystemTime,
) -> (elapsed: Result<Duration, SystemTimeError>)
    ensures
        elapsed == span_since(*this, earlier),
;

/// The whole seconds that a span holds, fractions dropped: what
/// `Duration::as_secs` returns for it.
pub uninterp spec fn whole_seconds(span: Duration) -> u64;

/// `Duration::as_secs` gives the whole seconds of a span: [`whole_seconds`].
pub assume_specification[ Duration::as_secs ](this: &Duration) -> (seconds: u64)
    ensures
        seconds == whole_seconds(*this),
;

/// Hands out the constant `SystemTime::UNIX_EPOCH`. Nothing is claimed of
/// it.
#[verifier::external_body]
fn unix_epoch() -> (epoch: SystemTime) {
    SystemTime::UNIX_EPOCH
}

/// The stamp for what the comparison of a clock reading with the epoch
/// gave: the whole seconds of the span in between, or nothing where the
/// reading lies before the epoch.
pub open spec fn stamp_of(elapsed: Result<Duration, SystemTimeError>) -> Option<u64> {
    match elapsed {
        Ok(span) => Some(whole_seconds(span)),
        Err(_) => None,
    }
}

/// Makes the stamp from what `SystemTime::duration_since` gave for a clock
/// reading and the epoch.
pub fn stamp_from(elapsed: Result<Duration, SystemTimeError>) -> (stamp: Option<u64>)
    ensures
        stamp == stamp_of(elapsed),
{
    match elapsed {
        Ok(span) => Some(span.as_secs()),
        Err(_) => None,
    }
}

/// The value of the cache-defeating request parameter: the current Unix time
/// in whole seconds, read anew at every call.
///
/// The stamp is that of one reading of the clock against the epoch: the
/// whole seconds between the two, or nothing where the clock stands before
/// 1970-01-01T00:00:00Z. Which reading it is, the clock alone decides.
pub fn cachebuster() -> (stamp: Option<u64>)
    ensures
        exists|now: SystemTime, epoch: SystemTime|
            stamp == stamp_of(#[trigger] span_since(now, epoch)),
{
    let now = SystemTime::now();
    stamp_from(now.duration_since(unix_epoch()))
}

} // verus!
