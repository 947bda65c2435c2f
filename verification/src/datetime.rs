//! Appointment timestamps.
//!
//! A timestamp is carried through the core as the canonical text that
//! chrono's `NaiveDateTime` displays (`2024-01-01 10:00:00`). That text
//! determines the date and time completely, so equality of canonical texts
//! is equality of timestamps, and it is exactly what the error messages and
//! the listing layer show. Parsing and clock reads are the only places where
//! chrono itself is consulted.

use vstd::prelude::*;

verus! {

/// What parsing `s` yields: the canonical text of the date and time when
/// `s` is a well-formed `%Y-%m-%dT%H:%M:%S%.f` timestamp, else the parse
/// error's text.
pub uninterp spec fn parsed_datetime(s: Seq<char>) -> Result<Seq<char>, Seq<char>>;

/// Relies on chrono's `NaiveDateTime`: `str::parse` accepts exactly the
/// `%Y-%m-%dT%H:%M:%S%.f` texts, and `Display` writes the value back in the
/// canonical `%Y-%m-%d %H:%M:%S%.f` form. The parse error's `Display` text
/// likewise depends on the input text alone.
#[verifier::external_body]
pub(crate) fn parse_datetime_text(s: &str) -> (r: Result<String, String>)
    ensures
        r matches Ok(t) ==> (parsed_datetime(s@) matches Ok(c) && c == t@),
        r matches Err(m) ==> (parsed_datetime(s@) matches Err(e) && e == m@),
{
    match s.parse::<chrono::NaiveDateTime>() {
        Ok(dt) => Ok(dt.to_string()),
        Err(e) => Err(e.to_string()),
    }
}

/// Relies on chrono's `Local::now`: the current moment, read from the
/// machine's clock, as naive UTC canonical text. Nothing is promised of a
/// clock reading.
#[verifier::external_body]
pub(crate) fn now_datetime_text() -> String {
    chrono::Local::now().naive_utc().to_string()
}

} // verus!
