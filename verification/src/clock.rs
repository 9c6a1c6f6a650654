//! The wall clock. Reading it is the one thing the core takes from the
//! outside world directly; everything derived from an instant is computed
//! by verified functions that take the instant as an argument.

use vstd::prelude::*;

verus! {

/// The present instant in epoch milliseconds.
///
/// Relies on `chrono::Utc::now` and `chrono::DateTime::timestamp_millis`:
/// the number of non-leap milliseconds since the Unix epoch. Nothing is
/// promised of the value — the clock is the environment's.
#[verifier::external_body]
pub fn now_millis() -> i64 {
    chrono::Utc::now().timestamp_millis()
}

} // verus!
