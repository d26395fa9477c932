//! Reading the system clock.
use vstd::prelude::*;
use std::time::{Duration, SystemTime};

verus! {

#[verifier::external_type_specification]
#[verifier::external_body]
pub struct ExSystemTime(SystemTime);

/// The current system time (std `SystemTime::now`). Nothing is stated of the
/// value: it depends on the clock.
#[verifier::external_body]
pub(crate) fn system_time_now() -> SystemTime {
    SystemTime::now()
}

/// The time elapsed from the Unix epoch to `t` (std
/// `SystemTime::duration_since(UNIX_EPOCH)`), or `None` when `t` lies before
/// the epoch. Nothing is stated of the duration.
#[verifier::external_body]
pub(crate) fn duration_since_epoch(t: &SystemTime) -> Option<Duration> {
    t.duration_since(SystemTime::UNIX_EPOCH).ok()
}

/// Whole microseconds in `d` (std `Duration::as_micros`). Nothing is stated
/// of the value.
#[verifier::external_body]
pub(crate) fn duration_micros(d: &Duration) -> u128 {
    d.as_micros()
}

/// Whole nanoseconds in `d` (std `Duration::as_nanos`). Nothing is stated
/// of the value.
#[verifier::external_body]
pub(crate) fn duration_nanos(d: &Duration) -> u128 {
    d.as_nanos()
}

/// Microseconds since the epoch as a `u64`: a reading's microseconds,
/// truncated to 64 bits; 0 when the clock read a time before the epoch.
pub fn micros_or_zero(d: Option<u128>) -> (r: u64)
    ensures
        r == match d {
            Some(us) => (us % 0x1_0000_0000_0000_0000) as u64,
            None => 0,
        },
{
    match d {
        Some(us) => {
            let r: u64 = (us % 0x1_0000_0000_0000_0000) as u64;
            r
        },
        None => 0,
    }
}

/// Nanoseconds since the epoch: a reading's nanoseconds; 0 when the clock
/// read a time before the epoch.
pub fn nanos_or_zero(d: Option<u128>) -> (r: u128)
    ensures
        r == match d {
            Some(ns) => ns,
            None => 0,
        },
{
    match d {
        Some(ns) => ns,
        None => 0,
    }
}

/// Microseconds since the Unix epoch, truncated to 64 bits; 0 when the clock
/// reads a time before the epoch. The value is the clock's.
pub fn unix_time_micros() -> u64 {
    let now = system_time_now();
    let us = match duration_since_epoch(&now) {
        Some(d) => Some(duration_micros(&d)),
        None => None,
    };
    micros_or_zero(us)
}

/// Nanoseconds since the Unix epoch; 0 when the clock reads a time before
/// the epoch. The value is the clock's.
pub fn unix_time_nanos() -> u128 {
    let now = system_time_now();
    let ns = match duration_since_epoch(&now) {
        Some(d) => Some(duration_nanos(&d)),
        None => None,
    };
    nanos_or_zero(ns)
}

} // verus!
