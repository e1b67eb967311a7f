//! Wall-clock time in milliseconds since the Unix epoch.

use vstd::prelude::*;
use core::time::Duration;
use std::time::SystemTime;

verus! {

#[verifier::external_type_specification]
#[verifier::external_body]
pub struct ExSystemTime(SystemTime);

/// `SystemTime::now`: the current time of the machine; nothing is promised of it.
#[verifier::external_body]
fn system_now() -> SystemTime {
    SystemTime::now()
}

/// `SystemTime::duration_since(UNIX_EPOCH)`: how long after the epoch `t` lies, or
/// `None` when it lies before; nothing more is said of the duration.
#[verifier::external_body]
fn since_unix_epoch(t: &SystemTime) -> (res: Option<Duration>) {
    t.duration_since(std::time::UNIX_EPOCH).ok()
}

/// `Duration::as_millis`: the whole milliseconds of `d`; nothing is said of the value.
#[verifier::external_body]
fn whole_millis(d: &Duration) -> u128 {
    d.as_millis()
}

/// A time stamp from the milliseconds since the epoch: truncated to 64 bits, and 0 when
/// the clock lies before the epoch.
pub fn millis_stamp(millis: Option<u128>) -> (res: u64)
    ensures
        res == (match millis {
            Some(m) => m as u64,
            None => 0,
        }),
{
    match millis {
        Some(m) => m as u64,
        None => 0,
    }
}

/// The current time in milliseconds since the Unix epoch (0 when the clock lies before
/// it). It depends on the machine's clock, so nothing more is promised of it.
pub fn now_ms() -> u64 {
    let now = system_now();
    let millis = match since_unix_epoch(&now) {
        Some(d) => Some(whole_millis(&d)),
        None => None,
    };
    millis_stamp(millis)
}

} // verus!
