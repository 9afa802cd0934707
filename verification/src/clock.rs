//! The wall clock, read through `chrono`.

use vstd::prelude::*;

verus! {

/// How the moment of a line is written: the UTC date and time to the second,
/// as in `2025-10-08T07:42:37Z`.
pub const TIMESTAMP_FORMAT: &'static str = "%Y-%m-%dT%H:%M:%SZ";

/// Reads the system clock with `chrono::Utc::now` and writes that moment with
/// `chrono::DateTime::format`, by the given format string.
///
/// Nothing is claimed of the text that comes back: it changes from call to
/// call, and a year past 9999 is written with a sign and more than four
/// digits. The format is held to [`TIMESTAMP_FORMAT`], whose items `chrono`
/// can always write; some other format strings make the rendering fail.
/// `chrono` itself expects the system clock not to stand before 1970.
#[verifier::external_body]
pub(crate) fn utc_timestamp(format: &str) -> (timestamp: String)
    requires
        format@ == TIMESTAMP_FORMAT@,
{
    chrono::Utc::now().format(format).to_string()
}

} // verus!
