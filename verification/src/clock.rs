//! Wall-clock time in whole seconds, read through `std::time`.

use std::time::{Duration, SystemTime, SystemTimeError};
use vstd::prelude::*;

verus! {

/// A point in time of the system clock; opaque to proofs.
#[verifier::external_type_specification]
#[verifier::external_body]
pub struct ExSystemTime(SystemTime);

/// The error of a clock reading that lies before the reference point;
/// opaque to proofs.
#[verifier::external_type_specification]
#[verifier::external_body]
pub struct ExSystemTimeError(SystemTimeError);

/// `SystemTime::now` reads the system clock. Nothing is claimed of the
/// reading.
pub assume_specification[ SystemTime::now ]() -> (now: SystemTime)
;

/// `Duration::as_secs` gives the whole seconds of a duration. Nothing is
/// claimed of the number.
pub assume_specification[ Duration::as_secs ](duration: &Duration) -> (secs: u64)
;

/// Calls `SystemTime::duration_since` with the Unix epoch as the earlier
/// point. Nothing is claimed of the result.
#[verifier::external_body]
fn since_epoch(time: &SystemTime) -> (elapsed: Result<Duration, SystemTimeError>) {
    time.duration_since(std::time::UNIX_EPOCH)
}

/// The current time in whole seconds since the Unix epoch. The reading is
/// not repeatable, so the contract says nothing of it; what a given reading
/// counts as is settled by [`epoch_seconds`].
pub fn unix_time() -> (secs: u64) {
    let now = SystemTime::now();
    let reading = match since_epoch(&now) {
        Ok(elapsed) => Some(elapsed.as_secs()),
        Err(_) => None,
    };
    epoch_seconds(reading)
}

/// The time that a clock reading counts as: the whole seconds since the
/// Unix epoch where the clock gave them, and the epoch itself, 0, where the
/// clock is set before it.
pub open spec fn seconds_of_reading(reading: Option<u64>) -> u64 {
    match reading {
        Some(secs) => secs,
        None => 0,
    }
}

/// Settles what a clock reading counts as. `reading` is the whole seconds
/// since the Unix epoch, or `None` for a clock that is set before it.
pub fn epoch_seconds(reading: Option<u64>) -> (secs: u64)
    ensures
        secs == seconds_of_reading(reading),
{
    match reading {
        Some(secs) => secs,
        None => 0,
    }
}

} // verus!
