//! Points in time, as `chrono` writes them.

use vstd::prelude::*;

verus! {

/// How the time of a block is written.
pub const BLOCK_TIME_FORMAT: &'static str = "%Y-%m-%d %H:%M:%S UTC";

/// A time, in seconds since the Unix epoch, as `chrono` writes it in UTC by a
/// format, or nothing where it lies outside the years that `chrono` counts.
pub uninterp spec fn utc_text(seconds: i64, format: Seq<char>) -> Option<Seq<char>>;

/// Calls `chrono::DateTime::from_timestamp` and formats the time that it gives.
/// What is written, and whether anything is, depends on the seconds and the
/// format alone. The format is held to one that `chrono` can write.
#[verifier::external_body]
pub(crate) fn format_utc(seconds: i64, format: &str) -> (shown: Option<String>)
    requires
        format@ == BLOCK_TIME_FORMAT@,
    ensures
        shown is Some <==> utc_text(seconds, format@) is Some,
        shown matches Some(text) ==> Some(text@) == utc_text(seconds, format@),
{
    match chrono::DateTime::from_timestamp(seconds, 0) {
        Some(time) => Some(time.format(format).to_string()),
        None => None,
    }
}

} // verus!
