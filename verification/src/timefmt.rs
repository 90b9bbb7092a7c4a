//! Instants and calendar days as texts.
//!
//! The library counts instants in microseconds since 1970-01-01T00:00:00
//! UTC and days as chrono counts them from the start of the Common Era
//! (day 1 is 0001-01-01). Turning either into text is left to chrono; the
//! texts are known to the proofs by name only.

use vstd::prelude::*;
use crate::text::opt_text;

verus! {

/// The RFC 3339 text of the instant `micros`, as chrono writes it in UTC;
/// `None` for an instant outside the range of chrono's dates.
pub uninterp spec fn rfc3339_text(micros: i64) -> Option<Seq<char>>;

/// `DateTime::from_timestamp_micros` of chrono, which is `None` outside the
/// range of its dates, then `DateTime::to_rfc3339` on the UTC instant.
#[verifier::external_body]
pub(crate) fn format_rfc3339(micros: i64) -> (r: Option<String>)
    ensures
        opt_text(r) == rfc3339_text(micros),
{
    match chrono::DateTime::from_timestamp_micros(micros) {
        Some(instant) => Some(instant.to_rfc3339()),
        None => None,
    }
}

/// The text of the calendar day `day`, as chrono writes a date (year,
/// month and day, separated by hyphens); `None` for a day outside the range
/// of chrono's dates.
pub uninterp spec fn day_text(day: i32) -> Option<Seq<char>>;

/// `NaiveDate::from_num_days_from_ce_opt` of chrono, which is `None`
/// outside the range of its dates, then the `Display` of the date.
#[verifier::external_body]
pub(crate) fn format_day(day: i32) -> (r: Option<String>)
    ensures
        opt_text(r) == day_text(day),
{
    match chrono::NaiveDate::from_num_days_from_ce_opt(day) {
        Some(date) => Some(date.to_string()),
        None => None,
    }
}

} // verus!
