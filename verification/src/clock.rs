use vstd::prelude::*;
use std::time::{Duration, SystemTime, UNIX_EPOCH};

verus! {

/// The wall-clock time type of std, carried through opaquely.
#[verifier::external_type_specification]
#[verifier::external_body]
pub struct ExSystemTime(SystemTime);

/// Reads the wall clock.
///
/// Trusted: calls `SystemTime::now`. The reading depends on the machine and
/// the moment, so nothing is stated of it.
#[verifier::external_body]
fn system_now() -> SystemTime {
    SystemTime::now()
}

/// The span from the unix epoch to `t`, or `None` when `t` lies before it.
///
/// Trusted: calls `SystemTime::duration_since(UNIX_EPOCH)`, turning its error
/// into `None`. Nothing is stated of the result, because `t` is opaque here.
#[verifier::external_body]
fn duration_since_epoch(t: &SystemTime) -> Option<Duration> {
    match t.duration_since(UNIX_EPOCH) {
        Ok(d) => Some(d),
        Err(_) => None,
    }
}

/// The whole seconds of a duration.
///
/// Trusted: calls `Duration::as_secs`. Nothing is stated of the result,
/// because `d` is opaque here.
#[verifier::external_body]
fn whole_secs(d: &Duration) -> u64 {
    d.as_secs()
}

/// The current unix time in whole seconds, or 0 when the clock reads a time
/// before the epoch.
pub fn unix_now_secs() -> u64 {
    let now = system_now();
    match duration_since_epoch(&now) {
        Some(d) => whole_secs(&d),
        None => 0,
    }
}

} // verus!
