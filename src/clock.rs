use vstd::prelude::*;

use crate::error::BusError;

verus! {

/// A reading of the wall clock.
#[verifier::external_type_specification]
#[verifier::external_body]
pub struct ExSystemTime(std::time::SystemTime);

/// Relies on std::time::SystemTime::now to read the wall clock; nothing is
/// known of the reading.
#[verifier::external_body]
fn wall_clock_now() -> (r: std::time::SystemTime) {
    std::time::SystemTime::now()
}

/// Relies on std::time::SystemTime::duration_since, measured from UNIX_EPOCH:
/// `None` where the reading lies before the epoch.
#[verifier::external_body]
fn since_unix_epoch(t: &std::time::SystemTime) -> (r: Option<core::time::Duration>) {
    t.duration_since(std::time::UNIX_EPOCH).ok()
}

/// Relies on core::time::Duration::as_millis for the whole milliseconds of `d`.
#[verifier::external_body]
fn whole_millis(d: &core::time::Duration) -> (r: u128) {
    d.as_millis()
}

/// Turns a count of milliseconds since the epoch into a timestamp: the count
/// itself where it fits in 64 bits, else a clock error.
pub fn timestamp_from_millis(millis: u128) -> (r: Result<u64, BusError>)
    ensures
        r == (if millis <= u64::MAX as u128 {
            Ok::<u64, BusError>(millis as u64)
        } else {
            Err::<u64, BusError>(BusError::ClockError)
        }),
{
    if millis <= u64::MAX as u128 {
        Ok(millis as u64)
    } else {
        Err(BusError::ClockError)
    }
}

/// The current wall-clock time in milliseconds since the Unix epoch. The only
/// error is `ClockError`, for a clock that reads before the epoch or beyond
/// what 64 bits hold.
pub fn current_timestamp() -> (r: Result<u64, BusError>)
    ensures
        r is Err ==> r == Err::<u64, BusError>(BusError::ClockError),
{
    let now = wall_clock_now();
    match since_unix_epoch(&now) {
        Some(d) => timestamp_from_millis(whole_millis(&d)),
        None => Err(BusError::ClockError),
    }
}

} // verus!
