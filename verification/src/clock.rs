//! The device wall clock in epoch milliseconds, the watermark that scopes
//! per-case `firewall_event` rows.

use vstd::prelude::*;

use std::time::{Duration, SystemTime};

verus! {

#[verifier::external_type_specification]
#[verifier::external_body]
pub struct ExSystemTime(SystemTime);

/// `SystemTime::now`: the current wall-clock time. Nothing is claimed of it.
#[verifier::external_body]
fn wall_clock_now() -> SystemTime {
    SystemTime::now()
}

/// `SystemTime::duration_since(UNIX_EPOCH)`: the time elapsed since the
/// epoch, `None` when `t` lies before it. Nothing more is claimed.
#[verifier::external_body]
fn since_unix_epoch(t: &SystemTime) -> Option<Duration> {
    t.duration_since(std::time::UNIX_EPOCH).ok()
}

/// `Duration::as_millis`: the whole milliseconds of `d`. Nothing is claimed
/// of the value, as `Duration` is opaque here.
#[verifier::external_body]
fn whole_millis(d: &Duration) -> u128 {
    d.as_millis()
}

/// The watermark a clock reading gives: the milliseconds since the epoch
/// as an `i64` (truncating, as `as i64` does), `0` before the epoch.
pub fn epoch_millis(elapsed_ms: Option<u128>) -> (ms: i64)
    ensures
        ms == match elapsed_ms {
            Some(m) => m as i64,
            None => 0i64,
        },
{
    match elapsed_ms {
        Some(m) => m as i64,
        None => 0,
    }
}

/// Device wall clock in epoch milliseconds, matching idps-fw's own `now_ms`
/// source; `0` if the clock reads before the epoch.
pub fn now_ms() -> (ms: i64) {
    let now = wall_clock_now();
    let elapsed = match since_unix_epoch(&now) {
        Some(d) => Some(whole_millis(&d)),
        None => None,
    };
    epoch_millis(elapsed)
}

} // verus!
