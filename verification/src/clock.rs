//! The wall clock and the calendar.

use vstd::prelude::*;
use crate::text::text_of;

verus! {

/// Reads the time with `chrono::Utc::now` and gives it as whole seconds since
/// the Unix epoch.
///
/// Trusted, and nothing is claimed of the time read. The call does not return
/// where the system clock stands before the epoch.
#[verifier::external_body]
pub(crate) fn unix_now() -> i64 {
    chrono::Utc::now().timestamp()
}

/// The date and time of day, written as `2015-09-05 23:56:04`, of the moment
/// `secs` seconds after the Unix epoch in UTC; none for a moment outside the
/// years that the calendar covers.
pub uninterp spec fn timestamp_text(secs: int) -> Option<Seq<char>>;

/// Writes a moment as date and time of day, with `chrono`'s
/// `DateTime::from_timestamp` and `NaiveDateTime::format`.
///
/// Trusted: the text is a function of the moment alone.
#[verifier::external_body]
pub(crate) fn format_timestamp(secs: i64) -> (r: Option<String>)
    ensures
        text_of(r) == timestamp_text(secs as int),
{
    match chrono::DateTime::from_timestamp(secs, 0) {
        Some(moment) => Some(moment.naive_utc().format("%Y-%m-%d %H:%M:%S").to_string()),
        None => None,
    }
}

} // verus!
