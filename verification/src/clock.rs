//! The system clock.

use std::time::{SystemTime, UNIX_EPOCH};
use vstd::prelude::*;

verus! {

/// A reading of the system clock.
#[verifier::external_type_specification]
#[verifier::external_body]
pub struct ExSystemTime(SystemTime);

/// Calls `SystemTime::now`. Nothing is claimed of the reading.
#[verifier::external_body]
fn read_clock() -> SystemTime {
    SystemTime::now()
}

/// The seconds and nanoseconds from the Unix epoch to a reading of the clock; `None` if the reading
/// lies before the epoch.
pub uninterp spec fn elapsed_at(reading: SystemTime) -> Option<(u64, u32)>;

/// Calls `SystemTime::duration_since` with the Unix epoch and splits the duration into whole
/// seconds and nanoseconds; `None` if the reading lies before the epoch. Claimed: the duration
/// depends on the reading alone, and the nanoseconds are less than a second.
#[verifier::external_body]
fn since_epoch(reading: SystemTime) -> (elapsed: Option<(u64, u32)>)
    ensures
        elapsed == elapsed_at(reading),
        elapsed matches Some(e) ==> e.1 < 1_000_000_000,
{
    let duration = reading.duration_since(UNIX_EPOCH).ok()?;
    Some((duration.as_secs(), duration.subsec_nanos()))
}

/// The whole milliseconds of a time since the epoch; zero for a time before it.
pub open spec fn millis_of(elapsed: Option<(u64, u32)>) -> int {
    match elapsed {
        Some(e) => e.0 * 1000 + e.1 as int / 1_000_000,
        None => 0,
    }
}

/// The whole milliseconds of a time since the epoch.
pub fn to_millis(elapsed: Option<(u64, u32)>) -> (ms: u128)
    ensures
        ms == millis_of(elapsed),
{
    match elapsed {
        Some(e) => e.0 as u128 * 1000 + (e.1 / 1_000_000) as u128,
        None => 0,
    }
}

/// The whole seconds of a time since the epoch; zero for a time before it.
pub open spec fn seconds_of(elapsed: Option<(u64, u32)>) -> u64 {
    match elapsed {
        Some(e) => e.0,
        None => 0,
    }
}

/// The whole seconds of a time since the epoch.
pub fn to_seconds(elapsed: Option<(u64, u32)>) -> (seconds: u64)
    ensures
        seconds == seconds_of(elapsed),
{
    match elapsed {
        Some(e) => e.0,
        None => 0,
    }
}

/// Seconds from the Unix epoch to now. What the clock shows is not stated, only that it is the
/// whole seconds from the epoch to a reading of the clock, and zero for a reading before the epoch.
pub(crate) fn now_seconds() -> (seconds: u64)
    ensures
        exists|reading: SystemTime| seconds == seconds_of(#[trigger] elapsed_at(reading)),
{
    to_seconds(since_epoch(read_clock()))
}

/// Milliseconds from the Unix epoch to now. What the clock shows is not stated, only that it is the
/// whole milliseconds from the epoch to a reading of the clock, and zero for a reading before the
/// epoch.
pub fn now_millis() -> (ms: u128)
    ensures
        exists|reading: SystemTime| ms == millis_of(#[trigger] elapsed_at(reading)),
{
    to_millis(since_epoch(read_clock()))
}

/// Whole milliseconds and seconds are rounded down from the nanoseconds that have passed since the
/// epoch; of a time before it there are none.
pub proof fn times_are_rounded_down(elapsed: Option<(u64, u32)>)
    ensures
        elapsed is None ==> millis_of(elapsed) == 0 && seconds_of(elapsed) == 0,
        elapsed matches Some(e) ==> e.1 < 1_000_000_000 ==> {
            let nanos = e.0 * 1_000_000_000 + e.1;
            &&& millis_of(elapsed) * 1_000_000 <= nanos < (millis_of(elapsed) + 1) * 1_000_000
            &&& seconds_of(elapsed) * 1_000_000_000 <= nanos < (seconds_of(elapsed) + 1)
                * 1_000_000_000
        },
{
}

} // verus!
