//! The current time and its notation as a mail date, both from the `chrono`
//! crate.

use chrono::{DateTime, Utc};
use vstd::prelude::*;

verus! {

/// The first second of the year 0, counted from the Unix epoch.
pub const MAIL_DATE_MIN: i64 = -62_167_219_200;

/// The last second of the year 9999, counted from the Unix epoch.
pub const MAIL_DATE_MAX: i64 = 253_402_300_799;

/// The RFC 2822 notation of the instant `secs` seconds after the Unix epoch,
/// in UTC.
pub uninterp spec fn mail_date_text(secs: int) -> Seq<char>;

/// Whether the instant has an RFC 2822 notation: the notation has four digits
/// for the year.
pub open spec fn has_mail_date(secs: int) -> bool {
    MAIL_DATE_MIN <= secs <= MAIL_DATE_MAX
}

/// `Utc::now` and `DateTime::timestamp`: the seconds since the Unix epoch
/// that the system clock shows. Nothing is known of the number. (On a machine
/// whose clock stands before 1970 `Utc::now` does not return.)
#[verifier::external_body]
pub(crate) fn unix_now() -> (secs: i64) {
    Utc::now().timestamp()
}

/// `DateTime::from_timestamp` and `DateTime::to_rfc2822`. The second panics
/// for a year outside 0 to 9999, which the precondition keeps away; within
/// that range the first always finds a date. The text is a function of the
/// instant alone: the contract gives it its name.
#[verifier::external_body]
pub(crate) fn mail_date(secs: i64) -> (r: String)
    requires
        has_mail_date(secs as int),
    ensures
        r@ == mail_date_text(secs as int),
{
    DateTime::<Utc>::from_timestamp(secs, 0).map(|t| t.to_rfc2822()).unwrap_or_default()
}

} // verus!
