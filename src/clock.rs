//! The wall clock, read through chrono.
use vstd::prelude::*;

verus! {

/// Relies on `chrono::Utc::now` and `DateTime::timestamp_micros`: the
/// current time in microseconds since the Unix epoch. `Utc::now` refuses a
/// clock set before the epoch, so the value is not negative.
#[verifier::external_body]
pub(crate) fn now_micros() -> (r: i64)
    ensures
        r >= 0,
{
    chrono::Utc::now().timestamp_micros()
}

/// Relies on `chrono::Utc::now` and `DateTime::format`: today's UTC date
/// written with the pattern `%Y%m%d`.
#[verifier::external_body]
pub(crate) fn utc_date_stamp() -> (r: String) {
    chrono::Utc::now().format("%Y%m%d").to_string()
}

} // verus!
