//! Values the library takes from its surroundings: the wall clock and fresh
//! random identifiers. Nothing is known of them beyond what is stated here.
use vstd::prelude::*;

verus! {

/// Relies on `chrono::Utc::now` and `DateTime::timestamp_millis`: the current
/// time as milliseconds since the Unix epoch. `Utc::now` measures the time
/// elapsed since the epoch, so the value is not negative.
#[verifier::external_body]
pub(crate) fn current_time_millis() -> (r: i64)
    ensures
        r >= 0,
{
    chrono::Utc::now().timestamp_millis()
}

/// Relies on `uuid::Uuid::new_v4`: a random version-4 UUID, taken as its
/// 128-bit value (`Uuid::as_u128`). Nothing is promised of the value.
#[verifier::external_body]
pub(crate) fn random_uuid() -> (r: u128) {
    uuid::Uuid::new_v4().as_u128()
}

} // verus!
