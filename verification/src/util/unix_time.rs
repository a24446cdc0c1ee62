//! The wall clock, in milliseconds.

use std::time::{Duration, SystemTime, SystemTimeError, UNIX_EPOCH};
use vstd::prelude::*;

verus! {

/// A point in time as the system clock gives it.
#[verifier::external_type_specification]
#[verifier::external_body]
pub struct ExSystemTime(SystemTime);

/// The error of a clock that stands before the time it is compared with.
#[verifier::external_type_specification]
#[verifier::external_body]
pub struct ExSystemTimeError(SystemTimeError);

/// `SystemTime::now`: the time that the system clock shows. Nothing is
/// claimed of it: it differs from call to call.
#[verifier::external_body]
fn clock() -> (time: SystemTime) {
    SystemTime::now()
}

/// `SystemTime::duration_since` the Unix epoch: how long after the epoch a
/// time lies, or an error where it lies before. Nothing more is claimed.
#[verifier::external_body]
fn since_epoch(time: &SystemTime) -> (elapsed: Result<Duration, SystemTimeError>) {
    time.duration_since(UNIX_EPOCH)
}

/// `Duration::as_millis`: a duration in whole milliseconds. Nothing more is
/// claimed of the number.
#[verifier::external_body]
fn whole_millis(elapsed: &Duration) -> (millis: u128) {
    elapsed.as_millis()
}

/// The timestamp for a number of milliseconds since the Unix epoch: the
/// number, cut to 64 bits; 0 where there is no number because the clock
/// stands before the epoch.
pub open spec fn timestamp_of(elapsed: Option<u128>) -> i64 {
    match elapsed {
        Some(millis) => millis as i64,
        None => 0,
    }
}

/// The timestamp for a number of milliseconds since the Unix epoch.
pub fn timestamp(elapsed: Option<u128>) -> (now: i64)
    ensures
        now == timestamp_of(elapsed),
{
    match elapsed {
        Some(millis) => {
            #[verifier::truncate]
            (millis as i64)
        },
        None => 0,
    }
}

/// Milliseconds since the Unix epoch; 0 when the clock stands before the
/// epoch. The value is the timestamp of what the clock shows, and nothing
/// holds of it whatever the clock shows.
pub fn unix_ms() -> (now: i64) {
    let time = clock();
    let elapsed = match since_epoch(&time) {
        Ok(elapsed) => Some(whole_millis(&elapsed)),
        Err(_) => None,
    };
    timestamp(elapsed)
}

} // verus!
