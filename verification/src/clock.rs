//! Time stamps: whole seconds since the start of 1970, UTC.

use std::time::SystemTime;

use vstd::prelude::*;

verus! {

/// Calls `SystemTime::elapsed` for the start of 1970, which gives the time since then by the
/// system clock, and takes it in whole seconds; `None` where the clock stands before 1970.
/// What it returns depends on the clock alone, so nothing is claimed of it.
#[verifier::external_body]
fn seconds_since_epoch() -> (seconds: Option<u64>) {
    match SystemTime::UNIX_EPOCH.elapsed() {
        Ok(elapsed) => Some(elapsed.as_secs()),
        Err(_) => None,
    }
}

/// The time stamp for a number of seconds since the start of 1970.
pub fn timestamp_from_seconds(seconds: u64) -> (timestamp: i64)
    ensures
        timestamp == seconds as i64,
        seconds <= i64::MAX ==> timestamp == seconds,
{
    seconds as i64
}

/// The current time; `None` where the system clock stands before 1970.
pub fn current_timestamp() -> (timestamp: Option<i64>) {
    timestamp_from_elapsed(seconds_since_epoch())
}

/// The time stamp for what the system clock gave: whole seconds since the start of 1970, or
/// `None` where it stands before.
pub fn timestamp_from_elapsed(seconds: Option<u64>) -> (timestamp: Option<i64>)
    ensures
        match seconds {
            Some(seconds) => timestamp == Some(seconds as i64),
            None => timestamp is None,
        },
{
    match seconds {
        Some(seconds) => Some(timestamp_from_seconds(seconds)),
        None => None,
    }
}

} // verus!
