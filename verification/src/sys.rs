//! Trusted wrappers around the process's sources of randomness and time.
//!
//! Nothing is promised of either result: a random identifier and the current
//! time differ from call to call, so every caller must work for every value
//! that comes back.

use vstd::prelude::*;

verus! {

/// Relies on `uuid::Uuid::new_v4`: draws a fresh random 128-bit identifier.
/// The value is random, so nothing is promised of it.
#[verifier::external_body]
pub(crate) fn random_u128() -> u128 {
    uuid::Uuid::new_v4().as_u128()
}

/// Relies on `std::time::SystemTime::now` (read through `duration_since` the
/// Unix epoch and `Duration::as_secs`): the current time as whole seconds
/// since the epoch, or 0 for a clock set before it.  The value depends on the
/// clock, so nothing is promised of it.
#[verifier::external_body]
pub(crate) fn unix_time_secs() -> u64 {
    match std::time::SystemTime::now().duration_since(std::time::SystemTime::UNIX_EPOCH) {
        Ok(d) => d.as_secs(),
        Err(_) => 0,
    }
}

} // verus!
