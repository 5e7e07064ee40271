//! Wall-clock readings. Every value here depends on the time of the call.
use vstd::prelude::*;

use std::time::{Duration, SystemTime};

verus! {

#[verifier::external_type_specification]
#[verifier::external_body]
pub struct ExSystemTime(SystemTime);

/// Calls `SystemTime::now`; nothing is promised of the reading.
#[verifier::external_body]
fn system_now() -> SystemTime {
    SystemTime::now()
}

/// Calls `SystemTime::duration_since` with the Unix epoch; `None` for a reading before it.
#[verifier::external_body]
fn since_unix_epoch(time: &SystemTime) -> Option<Duration> {
    time.duration_since(std::time::UNIX_EPOCH).ok()
}

/// Calls `Duration::as_millis`.
#[verifier::external_body]
fn duration_millis(duration: &Duration) -> u128 {
    duration.as_millis()
}

/// Calls `Duration::as_secs`.
#[verifier::external_body]
fn duration_secs(duration: &Duration) -> u64 {
    duration.as_secs()
}

/// Milliseconds since the Unix epoch, 0 before it and `u64::MAX` beyond that range.
pub fn unix_time_ms() -> u64 {
    match since_unix_epoch(&system_now()) {
        Some(duration) => {
            let millis = duration_millis(&duration);
            if millis > u64::MAX as u128 {
                u64::MAX
            } else {
                millis as u64
            }
        },
        None => 0,
    }
}

/// Seconds since the Unix epoch, 0 before it and `i64::MAX` beyond that range.
pub fn unix_time_seconds() -> (r: i64)
    ensures
        r >= 0,
{
    match since_unix_epoch(&system_now()) {
        Some(duration) => {
            let secs = duration_secs(&duration);
            if secs > i64::MAX as u64 {
                i64::MAX
            } else {
                secs as i64
            }
        },
        None => 0,
    }
}

} // verus!
