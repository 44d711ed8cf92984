//! The system clock as a number of seconds.

use std::time::{Duration, SystemTime, SystemTimeError, UNIX_EPOCH};
use vstd::prelude::*;

verus! {

/// Why a timestamp could not be had or shown.
#[derive(Clone, Copy, Debug, PartialEq, Eq, Structural)]
pub enum ClockError {
    /// The system clock gave no time after the epoch.
    Unavailable,
    /// The number of seconds is out of the calendar's range.
    OutOfRange,
}

/// `std::time::SystemTime`, a moment by the system clock. Opaque: it is
/// only handed from one call to the next.
#[verifier::external_type_specification]
#[verifier::external_body]
pub struct ExSystemTime(SystemTime);

/// `std::time::SystemTimeError`, what `duration_since` gives where the
/// second moment is the later one. Opaque: only its presence is read.
#[verifier::external_type_specification]
#[verifier::external_body]
pub struct ExSystemTimeError(SystemTimeError);

/// Calls `std::time::SystemTime::now`. Trusted to return; nothing is
/// claimed of the moment it gives.
#[verifier::external_body]
fn system_now() -> (moment: SystemTime) {
    SystemTime::now()
}

/// Calls `SystemTime::duration_since` with `UNIX_EPOCH` for the earlier
/// moment. Trusted to return; nothing is claimed of which way it ends.
#[verifier::external_body]
fn since_epoch(moment: &SystemTime) -> (elapsed: Result<Duration, SystemTimeError>) {
    moment.duration_since(UNIX_EPOCH)
}

/// Calls `Duration::as_secs`. Trusted to return; nothing is claimed of the
/// number.
#[verifier::external_body]
fn whole_seconds(elapsed: &Duration) -> (seconds: u64) {
    elapsed.as_secs()
}

/// The whole seconds of what the clock measured since the epoch, or
/// `Unavailable` where it measured none.
pub fn elapsed_seconds(elapsed: Result<Duration, SystemTimeError>) -> (now: Result<
    u64,
    ClockError,
>)
    ensures
        elapsed.is_ok() <==> now.is_ok(),
        elapsed.is_err() <==> now == Err::<u64, ClockError>(ClockError::Unavailable),
{
    match elapsed {
        Ok(length) => Ok(whole_seconds(&length)),
        Err(_) => Err(ClockError::Unavailable),
    }
}

/// The seconds since the epoch by the system clock, or `Unavailable` where
/// the clock stands before the epoch. Which of the two, and which number,
/// is the clock's to say.
pub fn current_timestamp() -> (now: Result<u64, ClockError>)
    ensures
        now.is_err() ==> now == Err::<u64, ClockError>(ClockError::Unavailable),
{
    let moment = system_now();
    elapsed_seconds(since_epoch(&moment))
}

} // verus!
