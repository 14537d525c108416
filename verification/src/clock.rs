//! The system clock, behind trusted wrappers: readings are timestamped
//! with whole seconds since the unix epoch.
use vstd::prelude::*;

verus! {

#[verifier::external_type_specification]
#[verifier::external_body]
pub struct ExSystemTime(std::time::SystemTime);

/// Relies on `std::time::SystemTime::now`: a reading of the system clock.
/// Nothing can be promised of its value.
#[verifier::external_body]
pub fn system_now() -> (t: std::time::SystemTime) {
    std::time::SystemTime::now()
}

/// Relies on `std::time::SystemTime::duration_since`, measured from
/// `std::time::UNIX_EPOCH`, and `std::time::Duration::as_secs`: the whole
/// seconds since the epoch; a time before the epoch is reported as 0.
#[verifier::external_body]
fn seconds_since_epoch(time: &std::time::SystemTime) -> (r: u64) {
    match time.duration_since(std::time::UNIX_EPOCH) {
        Ok(d) => d.as_secs(),
        Err(_) => 0,
    }
}

/// The time as whole seconds since the unix epoch, as a signed timestamp:
/// never negative, and saturated at `i64::MAX` should the clock ever reach
/// past what a signed timestamp can hold.
pub fn time_to_unix(time: std::time::SystemTime) -> (r: i64)
    ensures
        r >= 0,
{
    let secs: u64 = seconds_since_epoch(&time);
    if secs > i64::MAX as u64 {
        i64::MAX
    } else {
        secs as i64
    }
}

} // verus!
