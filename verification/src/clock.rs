//! Clock readings. Every reading here depends on when it is taken, so none of
//! them promises anything about its value; the logic that uses a reading takes
//! it as an argument elsewhere and is verified for every value of it.
use vstd::prelude::*;

verus! {

/// `std::time::Instant`, carried as an opaque origin for monotonic readings.
#[verifier::external_type_specification]
#[verifier::external_body]
pub struct ExInstant(std::time::Instant);

/// Calls `std::time::Instant::now`. Nothing is stated of the instant returned.
#[verifier::external_body]
pub(crate) fn instant_now() -> (r: std::time::Instant) {
    std::time::Instant::now()
}

/// Calls `std::time::Instant::elapsed` on `origin` and converts the duration to
/// whole milliseconds (truncated to `u64`). Nothing is stated of the value: it
/// depends on the time of the call.
#[verifier::external_body]
pub(crate) fn millis_since(origin: &std::time::Instant) -> (r: u64) {
    origin.elapsed().as_millis() as u64
}

/// Calls `std::time::SystemTime::duration_since(UNIX_EPOCH)` on the current
/// system time and converts the duration to whole milliseconds (truncated to
/// `u64`); `None` where the clock stands before the epoch. Nothing is stated of
/// the value: it depends on the time of the call.
#[verifier::external_body]
pub(crate) fn epoch_millis() -> (r: Option<u64>) {
    match std::time::SystemTime::now().duration_since(std::time::UNIX_EPOCH) {
        Ok(d) => Some(d.as_millis() as u64),
        Err(_) => None,
    }
}

/// Calls `std::time::SystemTime::duration_since(UNIX_EPOCH)` on the current
/// system time and converts the duration to whole nanoseconds; `None` where the
/// clock stands before the epoch. Nothing is stated of the value.
#[verifier::external_body]
pub(crate) fn epoch_nanos() -> (r: Option<u128>) {
    match std::time::SystemTime::now().duration_since(std::time::UNIX_EPOCH) {
        Ok(d) => Some(d.as_nanos()),
        Err(_) => None,
    }
}

/// Milliseconds since the Unix epoch, or 0 when the system clock stands before it.
pub fn now_epoch_ms() -> (r: u64) {
    match epoch_millis() {
        Some(ms) => ms,
        None => 0,
    }
}

/// Nanoseconds since the Unix epoch, or 0 when the system clock stands before it.
pub fn now_epoch_nanos() -> (r: u128) {
    match epoch_nanos() {
        Some(ns) => ns,
        None => 0,
    }
}

} // verus!

verus! {

/// Milliseconds from `then` to `now`, and 0 where `now` is earlier: what
/// `saturating_sub` and `Instant::duration_since` give.
pub open spec fn elapsed(now: u64, then: u64) -> u64 {
    if now >= then {
        (now - then) as u64
    } else {
        0
    }
}

/// `a + b`, held at `u64::MAX` where it would overflow.
pub open spec fn sat_add(a: u64, b: u64) -> u64 {
    if a + b > u64::MAX {
        u64::MAX
    } else {
        (a + b) as u64
    }
}

} // verus!
