//! The clock and the calendar, which the chrono crate supplies.

use vstd::prelude::*;

verus! {

/// `chrono::Utc::now` and `DateTime::to_rfc3339`: the present instant in UTC,
/// written as RFC 3339. Nothing is claimed of the text: it differs from call
/// to call. chrono gives up on a machine whose clock stands before 1970.
#[verifier::external_body]
pub(crate) fn now_rfc3339() -> (r: String) {
    chrono::Utc::now().to_rfc3339()
}

/// `TimeDelta::try_days`, `Utc::now`, `DateTime::checked_sub_signed` and
/// `DateTime::to_rfc3339`: the instant `days` days before the present one, in
/// UTC and written as RFC 3339, or `None` where chrono cannot represent that
/// instant. Nothing is claimed of the result: it differs from call to call.
/// chrono gives up on a machine whose clock stands before 1970.
#[verifier::external_body]
pub(crate) fn cutoff_rfc3339(days: u32) -> (r: Option<String>) {
    chrono::TimeDelta::try_days(i64::from(days))
        .and_then(|span| chrono::Utc::now().checked_sub_signed(span))
        .map(|instant| instant.to_rfc3339())
}

/// Whether `DateTime::parse_from_rfc3339` accepts a text.
pub uninterp spec fn is_rfc3339(text: Seq<char>) -> bool;

/// How a time of capture is shown: year, month, day, hour and minute.
pub const MINUTE_FORMAT: &'static str = "%Y-%m-%d %H:%M";

/// `DateTime::parse_from_rfc3339`, `DateTime::with_timezone` and
/// `DateTime::format`: the instant that an RFC 3339 text names, written in
/// the machine's time zone as `format` says. `format` is the one that shows
/// year, month, day, hour and minute, on which chrono does not fail. The
/// result is `None` exactly where the text does not parse. Nothing more is
/// claimed of it: it depends on the time zone of the machine.
#[verifier::external_body]
pub(crate) fn local_time(rfc3339: &str, format: &str) -> (r: Option<String>)
    requires
        format@ == MINUTE_FORMAT@,
    ensures
        r is Some <==> is_rfc3339(rfc3339@),
{
    chrono::DateTime::parse_from_rfc3339(rfc3339)
        .ok()
        .map(|instant| instant.with_timezone(&chrono::Local).format(format).to_string())
}

} // verus!
