//! The system clock.
use std::time::{Duration, SystemTime, SystemTimeError};

use vstd::prelude::*;

verus! {

/// A reading of the system clock.
#[verifier::external_type_specification]
#[verifier::external_body]
pub struct ExSystemTime(SystemTime);

/// The error of a clock reading taken before the point it is measured from.
#[verifier::external_type_specification]
#[verifier::external_body]
pub struct ExSystemTimeError(SystemTimeError);

/// Calls `SystemTime::now`.  Nothing is claimed of the reading: it is the
/// time.
#[verifier::external_body]
fn clock_now() -> (t: SystemTime) {
    SystemTime::now()
}

/// Calls `SystemTime::duration_since` with `UNIX_EPOCH`: the time elapsed
/// since the epoch, or an error when the reading is earlier.  Nothing is
/// claimed of the value.
#[verifier::external_body]
fn since_unix_epoch(t: &SystemTime) -> (d: Result<Duration, SystemTimeError>) {
    t.duration_since(std::time::UNIX_EPOCH)
}

/// Calls `Duration::as_millis`: the whole milliseconds of a duration.
/// Nothing is claimed of the value, as `Duration` is opaque here.
#[verifier::external_body]
fn whole_millis(d: &Duration) -> (ms: u128) {
    d.as_millis()
}

/// The clock's time in whole milliseconds since the Unix epoch (zero when the
/// clock reads before the epoch, cut to 64 bits).
pub(crate) fn unix_time_ms() -> (ms: u64) {
    let now = clock_now();
    match since_unix_epoch(&now) {
        Ok(d) => {
            let ms = whole_millis(&d);
            #[verifier::truncate]
            (ms as u64)
        },
        Err(_) => 0,
    }
}

} // verus!
