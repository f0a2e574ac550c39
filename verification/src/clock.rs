//! The wall clock, for what is measured against timestamps the node reports.

use vstd::prelude::*;

verus! {

/// Seconds from the Unix epoch to the moment of the call, as
/// `SystemTime::elapsed` on `UNIX_EPOCH` measures them; `None` where the
/// system clock stands before the epoch. Nothing is promised of the number.
#[verifier::external_body]
fn seconds_since_epoch() -> (now: Option<u64>) {
    match std::time::UNIX_EPOCH.elapsed() {
        Ok(elapsed) => Some(elapsed.as_secs()),
        Err(_) => None,
    }
}

/// The current Unix time in seconds. A clock set before the epoch reads
/// as the epoch itself.
pub fn unix_now() -> u64 {
    reading_or_epoch(seconds_since_epoch())
}

/// The Unix time that a reading of the clock stands for: the seconds it
/// measured, and zero, the epoch itself, for a clock that stands before
/// the epoch.
pub fn reading_or_epoch(reading: Option<u64>) -> (now: u64)
    ensures
        now == match reading {
            Some(seconds) => seconds,
            None => 0,
        },
{
    match reading {
        Some(seconds) => seconds,
        None => 0,
    }
}

} // verus!
