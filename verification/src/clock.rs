//! The system clock, read as whole seconds since 1970.
//!
//! A clock that stands before 1970 is reported as a failure, never as a
//! time.

use vstd::prelude::*;
use crate::error::CommandError;

verus! {

#[verifier::external_type_specification]
#[verifier::external_body]
pub struct ExSystemTime(std::time::SystemTime);

#[verifier::external_type_specification]
#[verifier::external_body]
pub struct ExSystemTimeError(std::time::SystemTimeError);

/// The diagnostic for a clock that cannot be read as a time since 1970.
pub const CLOCK_UNUSABLE: &'static str = "the system clock does not give a time since 1970";

/// Trusted: `std::time::SystemTime::now`, the current reading of the system
/// clock.
#[verifier::external_body]
fn clock_reading() -> (now: std::time::SystemTime) {
    std::time::SystemTime::now()
}

/// Trusted: `std::time::SystemTime::duration_since` against
/// `std::time::UNIX_EPOCH`: the time elapsed since 1970, or an error where
/// the reading lies before it.
#[verifier::external_body]
fn since_epoch(reading: &std::time::SystemTime) -> (r: Result<
    std::time::Duration,
    std::time::SystemTimeError,
>) {
    reading.duration_since(std::time::UNIX_EPOCH)
}

/// Trusted: `std::time::Duration::as_secs`, the whole seconds of a duration.
#[verifier::external_body]
fn whole_seconds(elapsed: &std::time::Duration) -> (seconds: u64) {
    elapsed.as_secs()
}

/// The seconds as a time stamp, where they fit one.
pub open spec fn stamp_of(seconds: u64) -> Option<i64> {
    if seconds <= i64::MAX {
        Some(seconds as i64)
    } else {
        None
    }
}

/// The time stamp for a count of seconds since 1970; none where the count
/// does not fit.
pub fn seconds_to_stamp(seconds: u64) -> (stamp: Option<i64>)
    ensures
        stamp == stamp_of(seconds),
{
    if seconds <= 0x7fff_ffff_ffff_ffff {
        Some(seconds as i64)
    } else {
        None
    }
}

/// The time stamp that an elapsed time since 1970 gives: none where the
/// clock stood before 1970 or the seconds do not fit.
pub fn stamp_or_failure(stamp: Option<i64>) -> (r: Result<i64, CommandError>)
    ensures
        match r {
            Ok(now) => stamp == Some(now),
            Err(e) => stamp is None && e.message@ == CLOCK_UNUSABLE@,
        },
{
    match stamp {
        Some(now) => Ok(now),
        None => Err(CommandError::new(CLOCK_UNUSABLE)),
    }
}

/// The current time as whole seconds since 1970.  Fails where the clock
/// stands before 1970; never yields a negative time.
pub fn unix_seconds() -> (r: Result<i64, CommandError>)
    ensures
        match r {
            Ok(now) => now >= 0,
            Err(e) => e.message@ == CLOCK_UNUSABLE@,
        },
{
    let reading = clock_reading();
    match since_epoch(&reading) {
        Ok(elapsed) => stamp_or_failure(seconds_to_stamp(whole_seconds(&elapsed))),
        Err(_) => stamp_or_failure(None),
    }
}

} // verus!
