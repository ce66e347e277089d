//! Adapters for the identifier generator and the clock.
//!
//! Both results depend on state outside the program (randomness, the system
//! clock), so nothing is assumed of the values; every caller is verified
//! for every possible outcome.

use vstd::prelude::*;

verus! {

/// Draws a fresh random 128-bit identifier token.
///
/// Relies on `uuid::Uuid::new_v4`, which builds a version-4 UUID from
/// process randomness; the value is random, so no contract is stated and
/// callers must cope with any outcome, including one already in use.
#[verifier::external_body]
pub(crate) fn fresh_id() -> u128 {
    uuid::Uuid::new_v4().as_u128()
}

/// Reads the current wall-clock time as microseconds since the Unix epoch.
///
/// Relies on `chrono::Utc::now` and `DateTime::timestamp_micros`; the clock
/// may move arbitrarily between reads, so no contract is stated and callers
/// must cope with any value. `Utc::now` itself aborts if the system clock
/// reads earlier than the Unix epoch.
#[verifier::external_body]
pub(crate) fn now_timestamp() -> i64 {
    chrono::Utc::now().timestamp_micros()
}

} // verus!
