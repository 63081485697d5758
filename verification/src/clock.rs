//! The clock and the dates that servers write.

use vstd::prelude::*;

verus! {

/// The milliseconds since the Unix epoch that `chrono::DateTime::parse_from_rfc3339` reads from a
/// text; nothing where it refuses the text.
pub uninterp spec fn rfc3339_millis(s: Seq<char>) -> Option<i64>;

/// The milliseconds since the Unix epoch that `chrono::DateTime::parse_from_str` reads from a text
/// in a format; nothing where it refuses the text.
pub uninterp spec fn formatted_millis(s: Seq<char>, format: Seq<char>) -> Option<i64>;

/// `chrono::DateTime::parse_from_rfc3339`, as milliseconds since the Unix epoch. The result depends
/// on the text alone.
#[verifier::external_body]
pub(crate) fn parse_rfc3339(s: &str) -> (r: Option<i64>)
    ensures
        r == rfc3339_millis(s@),
{
    chrono::DateTime::parse_from_rfc3339(s).ok().map(|at| at.timestamp_millis())
}

/// `chrono::DateTime::parse_from_str`, as milliseconds since the Unix epoch. The result depends on
/// the text and the format alone.
#[verifier::external_body]
pub(crate) fn parse_formatted(s: &str, format: &str) -> (r: Option<i64>)
    ensures
        r == formatted_millis(s@, format@),
{
    chrono::DateTime::parse_from_str(s, format).ok().map(|at| at.timestamp_millis())
}

/// The text that `chrono::DateTime::format` gives a time in a format; nothing for a time that
/// `chrono` does not hold.
pub uninterp spec fn written_time(millis: i64, format: Seq<char>) -> Option<Seq<char>>;

/// `chrono::DateTime::format` on the time that lies so many milliseconds after the Unix epoch. The
/// result depends on the time and the format alone. The one format that is used here is well
/// formed: `chrono` panics on one that is not.
#[verifier::external_body]
pub(crate) fn write_time(millis: i64, format: &str) -> (r: Option<String>)
    requires
        format@ == "%Y-%m-%d %H:%M:%S%.3f"@,
    ensures
        crate::json::opt_view(r) == written_time(millis, format@),
{
    chrono::DateTime::from_timestamp_millis(millis).map(|at| at.format(format).to_string())
}

/// The milliseconds since the Unix epoch by `chrono::Utc::now`. Nothing is said of the result: it
/// is the machine's clock.
#[verifier::external_body]
pub(crate) fn now_millis() -> i64 {
    chrono::Utc::now().timestamp_millis()
}

} // verus!
