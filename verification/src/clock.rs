//! The system clock.

use std::time::{Duration, SystemTime, SystemTimeError};
use vstd::prelude::*;

verus! {

/// `std::time::SystemTime`: a reading of the system clock. Nothing is known
/// of what a value holds.
#[verifier::external_type_specification]
#[verifier::external_body]
pub struct ExSystemTime(std::time::SystemTime);

/// `std::time::SystemTimeError`: the error of `SystemTime::duration_since`.
/// Nothing is known of what a value holds.
#[verifier::external_type_specification]
#[verifier::external_body]
pub struct ExSystemTimeError(std::time::SystemTimeError);

/// `SystemTime::now` reads the system clock. Nothing is claimed of the time
/// it returns.
pub assume_specification[ SystemTime::now ]() -> (now: SystemTime);

/// `SystemTime::duration_since` is the time that passed from `earlier` to
/// `time`, or an error where `earlier` is the later of the two. Nothing is
/// claimed of which it returns.
pub assume_specification[ SystemTime::duration_since ](
    time: &SystemTime,
    earlier: SystemTime,
) -> (elapsed: Result<Duration, SystemTimeError>);

/// `Duration::as_secs` is the number of whole seconds in the duration.
/// Nothing is claimed of the number.
pub assume_specification[ Duration::as_secs ](duration: &Duration) -> (secs: u64);

/// The constant `std::time::UNIX_EPOCH`: the first second of 1970 in UTC.
/// Nothing is claimed of it.
#[verifier::external_body]
fn unix_epoch() -> (epoch: SystemTime) {
    std::time::UNIX_EPOCH
}

/// The time by the clock `since_epoch`, in seconds since the Unix epoch:
/// the seconds that the clock gives, `i64::MAX` where they are more than
/// that, and 0 where the clock stands before the epoch and gives none.
pub open spec fn timestamp_of(since_epoch: Option<u64>) -> i64 {
    match since_epoch {
        Some(secs) => if secs <= i64::MAX {
            secs as i64
        } else {
            i64::MAX
        },
        None => 0,
    }
}

/// The time by the clock `since_epoch`, in seconds since the Unix epoch.
pub fn timestamp_from(since_epoch: Option<u64>) -> (timestamp: i64)
    ensures
        timestamp == timestamp_of(since_epoch),
{
    match since_epoch {
        Some(secs) => if secs <= 0x7fff_ffff_ffff_ffff {
            secs as i64
        } else {
            i64::MAX
        },
        None => 0,
    }
}

/// The whole seconds from the Unix epoch to now by the system clock, or
/// `None` where the clock stands before the epoch.
pub fn seconds_since_epoch() -> (since_epoch: Option<u64>) {
    let now = SystemTime::now();
    match now.duration_since(unix_epoch()) {
        Ok(elapsed) => Some(elapsed.as_secs()),
        Err(_) => None,
    }
}

/// The time now, in seconds since the Unix epoch.
pub fn unix_timestamp() -> (timestamp: i64)
    ensures
        timestamp >= 0,
{
    timestamp_from(seconds_since_epoch())
}

} // verus!
