//! The wall clock, read through `std::time`. Nothing is claimed of what the
//! clock returns: every time-derived value in the library holds for any
//! reading.

use std::time::{Duration, SystemTime};
use vstd::prelude::*;

verus! {

#[verifier::external_type_specification]
#[verifier::external_body]
pub struct ExSystemTime(SystemTime);

/// Calls `SystemTime::now`: the current wall-clock time. Nothing is stated of
/// it; it changes from call to call.
#[verifier::external_body]
pub(crate) fn clock_now() -> (t: SystemTime) {
    SystemTime::now()
}

/// Hands out `std::time::UNIX_EPOCH`, the start of Unix time. Nothing is
/// stated of the opaque value.
#[verifier::external_body]
pub(crate) fn unix_epoch() -> (t: SystemTime) {
    std::time::UNIX_EPOCH
}

/// Calls `SystemTime::duration_since`: the time from `earlier` to `later`,
/// `None` when `earlier` is the later one (the call's error case). What is
/// returned depends on the two opaque clock readings, of which nothing is
/// known here, so nothing more is stated.
#[verifier::external_body]
pub(crate) fn duration_since(later: &SystemTime, earlier: &SystemTime) -> (d: Option<Duration>) {
    later.duration_since(*earlier).ok()
}

/// Calls `Duration::as_secs`: the whole seconds of `d`. The duration is
/// opaque here, so nothing is stated of the count.
#[verifier::external_body]
pub(crate) fn as_secs(d: &Duration) -> (s: u64) {
    d.as_secs()
}

/// Whole days in `secs` seconds; a reading that could not be taken counts as
/// zero days.
pub fn days_from_secs(secs: Option<u64>) -> (d: u64)
    ensures
        d == (match secs {
            Some(s) => s / 86_400,
            None => 0,
        }),
{
    match secs {
        Some(s) => s / 86_400,
        None => 0,
    }
}

/// The whole seconds of a reading that could be taken; 0 for one that could
/// not (a clock reading before the Unix epoch).
pub fn secs_or_zero(secs: Option<u64>) -> (s: u64)
    ensures
        s == (match secs {
            Some(v) => v,
            None => 0,
        }),
{
    match secs {
        Some(v) => v,
        None => 0,
    }
}

/// Seconds since the Unix epoch; 0 when the clock reads before it. The
/// reading is the wall clock's, of which nothing is known here, so no clause
/// states the count: [`secs_or_zero`] turns what the clock gave into it.
pub fn now_unix() -> (s: u64) {
    let now = clock_now();
    let epoch = unix_epoch();
    let secs = match duration_since(&now, &epoch) {
        Some(d) => Some(as_secs(&d)),
        None => None,
    };
    secs_or_zero(secs)
}

/// Whole days from `newest` to now; 0 when there is no `newest` or it lies
/// in the future. The count rests on the wall clock, of which nothing is
/// known here: whatever it reads, the result is a whole-day count of some
/// `u64` number of seconds, as [`days_from_secs`] computes it.
pub fn days_since(newest: &Option<SystemTime>) -> (d: u64)
    ensures
        newest.is_none() ==> d == 0,
        d <= u64::MAX / 86_400,
{
    match newest {
        Some(n) => {
            let now = clock_now();
            let secs = match duration_since(&now, n) {
                Some(dur) => Some(as_secs(&dur)),
                None => None,
            };
            days_from_secs(secs)
        },
        None => 0,
    }
}

} // verus!
