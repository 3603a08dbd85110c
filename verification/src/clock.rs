//! Wall-clock access through std, the only source of time in the library.

use vstd::prelude::*;
use std::time::Duration;
use std::time::SystemTime;

verus! {

#[verifier::external_type_specification]
#[verifier::external_body]
pub struct ExSystemTime(SystemTime);

/// Calls `SystemTime::now`. Nothing is claimed of the instant it returns.
#[verifier::external_body]
pub(crate) fn system_time_now() -> SystemTime {
    SystemTime::now()
}

/// Calls `SystemTime::duration_since` with `UNIX_EPOCH`, keeping the duration
/// when the instant is not earlier than the epoch. The instant is opaque here,
/// so nothing is claimed of the result.
#[verifier::external_body]
pub(crate) fn duration_since_unix_epoch(instant: &SystemTime) -> Option<Duration> {
    instant.duration_since(std::time::UNIX_EPOCH).ok()
}

/// Calls `Duration::as_millis`. The duration is opaque here, so nothing is
/// claimed of the count.
#[verifier::external_body]
pub(crate) fn duration_as_millis(duration: &Duration) -> u128 {
    duration.as_millis()
}

} // verus!
