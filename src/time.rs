//! Calendar texts of Unix timestamps.
use vstd::prelude::*;
use crate::text::{signed_decimal, signed_decimal_string};

verus! {

/// The first second of year 0, in Unix time.
pub const RFC2822_MIN_SECS: i64 = -62167219200;

/// The last second of year 9999, in Unix time.
pub const RFC2822_MAX_SECS: i64 = 253402300799;

/// The RFC 2822 text that chrono gives of a Unix time, in UTC.
pub uninterp spec fn rfc2822_text(secs: int) -> Seq<char>;

/// The `%Y-%m-%d %H:%M:%S %Z` text that chrono gives of a Unix time, in UTC;
/// none for a time that chrono cannot represent.
pub uninterp spec fn utc_text(secs: int) -> Option<Seq<char>>;

/// How a time is shown where no calendar text can be had: its Unix seconds.
pub open spec fn unix_time_text(secs: int) -> Seq<char> {
    signed_decimal(secs) + " (Unix time)"@
}

/// The Unix-time text of a time.
pub fn unix_time_string(secs: i64) -> (r: String)
    ensures
        r@ == unix_time_text(secs as int),
{
    let mut s = signed_decimal_string(secs);
    s.append(" (Unix time)");
    s
}

/// Whether a Unix time falls in the years that RFC 2822 can write, 0 to 9999.
pub open spec fn rfc2822_writable(secs: int) -> bool {
    RFC2822_MIN_SECS <= secs <= RFC2822_MAX_SECS
}

/// Relies on chrono's `DateTime::from_timestamp` and `DateTime::to_rfc2822`:
/// the RFC 2822 text of a time. `to_rfc2822` panics outside the years 0 to
/// 9999, which the precondition leaves out; within them `from_timestamp`
/// always gives a time (its range spans about 262000 years each way), so the
/// default is never taken.
#[verifier::external_body]
pub(crate) fn rfc2822_at(secs: i64) -> (r: String)
    requires
        rfc2822_writable(secs as int),
    ensures
        r@ == rfc2822_text(secs as int),
{
    chrono::DateTime::from_timestamp(secs, 0).unwrap_or_default().to_rfc2822()
}

/// Relies on chrono's `DateTime::from_timestamp` and `DateTime::format` with
/// `%Y-%m-%d %H:%M:%S %Z`: the date and time of a Unix time in UTC, or none
/// when `from_timestamp` cannot represent the time.
#[verifier::external_body]
pub(crate) fn utc_at(secs: i64) -> (r: Option<String>)
    ensures
        r matches Some(t) ==> utc_text(secs as int) == Some(t@),
        r is None ==> utc_text(secs as int) is None,
{
    match chrono::DateTime::from_timestamp(secs, 0) {
        Some(dt) => Some(dt.format("%Y-%m-%d %H:%M:%S %Z").to_string()),
        None => None,
    }
}

} // verus!
