use vstd::prelude::*;

verus! {

/// Relies on `chrono::Utc::now` and `DateTime::timestamp_millis`: the wall
/// clock in milliseconds since the Unix epoch. Nothing is promised of the
/// value. `Utc::now` panics only when the system clock reads before 1970 or
/// past the range of `DateTime`.
#[verifier::external_body]
pub(crate) fn now_millis() -> (r: i64) {
    chrono::Utc::now().timestamp_millis()
}

/// Relies on `uuid::Uuid::new_v4` and its `Display`, which writes the
/// hyphenated lower-case form, `Hyphenated::LENGTH` (36) characters. `new_v4`
/// panics only when the operating system has no randomness to give.
#[verifier::external_body]
pub(crate) fn new_trade_id() -> (r: String)
    ensures
        r@.len() == 36,
{
    uuid::Uuid::new_v4().to_string()
}

} // verus!
