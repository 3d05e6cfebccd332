//! The calendar model of the planner's wall-clock timestamps.
//!
//! The planner hands out civil (timezone-less) date and time strings.  A
//! parsed timestamp is held as its calendar fields plus the number of
//! non-leap seconds between it, read as a UTC instant, and the Unix epoch.
//! Differences of such values are exact trip durations, because the
//! planner's strings all carry the same (unstated) local offset, which
//! cancels out — the single-offset approximation the formatter documents.

use vstd::prelude::*;
use crate::text::{spec_two_digit, spec_int_str, two_digit_string, i64_to_string};
use vstd::string::StringExecFns;
use chrono::Datelike;
use chrono::Timelike;

verus! {

/// A parsed civil date and time, with the fields the formatter renders
/// and the naive epoch-second count it computes with.
#[derive(Clone, Copy, PartialEq, Eq, Structural, Debug)]
pub struct CivilDateTime {
    pub year: i32,
    pub month: u8,
    pub day: u8,
    pub hour: u8,
    pub minute: u8,
    /// Non-leap seconds since 1970-01-01 00:00:00, reading the civil
    /// fields as a UTC instant.
    pub epoch_seconds: i64,
}

/// Well-formedness of a civil timestamp: the field ranges any calendar
/// datetime satisfies, and the epoch-second range a datetime within
/// chrono's representable years (about ±262,000) can reach.
pub open spec fn spec_civil_wf(c: CivilDateTime) -> bool {
    &&& 1 <= c.month <= 12
    &&& 1 <= c.day <= 31
    &&& c.hour <= 23
    &&& c.minute <= 59
    &&& -10_000_000_000_000 <= c.epoch_seconds <= 10_000_000_000_000
}

/// What parsing a civil date string and a time string in the planner's
/// "%Y-%m-%d %H:%M:%S" shape yields: the parsed timestamp, or `None`
/// when the pair does not match that shape.
pub uninterp spec fn spec_parse_civil(date: Seq<char>, time: Seq<char>) -> Option<CivilDateTime>;

/// Relies on chrono's `NaiveDateTime::parse_from_str` with the format
/// "%Y-%m-%d %H:%M:%S", its `Datelike`/`Timelike` accessors, and
/// `and_utc().timestamp()`.  The result depends on the two strings
/// alone; a parsed datetime has calendar-valid fields and lies within
/// chrono's documented representable range.
#[verifier::external_body]
pub(crate) fn parse_civil(date: &str, time: &str) -> (r: Option<CivilDateTime>)
    ensures
        r == spec_parse_civil(date@, time@),
        r matches Some(c) ==> spec_civil_wf(c),
{
    let joined = format!("{} {}", date, time);
    match chrono::NaiveDateTime::parse_from_str(joined.as_str(), "%Y-%m-%d %H:%M:%S") {
        Ok(dt) => Some(CivilDateTime {
            year: dt.year(),
            month: dt.month() as u8,
            day: dt.day() as u8,
            hour: dt.hour() as u8,
            minute: dt.minute() as u8,
            epoch_seconds: dt.and_utc().timestamp(),
        }),
        Err(_) => None,
    }
}

/// The "H:MM" rendering of a timestamp's time of day (hours zero-padded
/// to two digits, as the planner's own strings are).
pub open spec fn spec_hm(c: CivilDateTime) -> Seq<char> {
    spec_two_digit(c.hour as int) + seq![':'] + spec_two_digit(c.minute as int)
}

/// The year, zero-padded to four digits inside 0..=9999 and rendered
/// as a plain signed decimal outside that range.
pub open spec fn spec_year_str(y: int) -> Seq<char> {
    if 0 <= y <= 9999 {
        spec_two_digit(y / 100) + spec_two_digit(y % 100)
    } else {
        spec_int_str(y)
    }
}

/// The "YYYY-MM-DD" rendering of a timestamp's date.
pub open spec fn spec_ymd(c: CivilDateTime) -> Seq<char> {
    spec_year_str(c.year as int) + seq!['-'] + spec_two_digit(c.month as int) + seq!['-']
        + spec_two_digit(c.day as int)
}

/// Renders "H:MM" for a well-formed timestamp.
pub fn hm_string(c: &CivilDateTime) -> (s: String)
    requires
        spec_civil_wf(*c),
    ensures
        s@ == spec_hm(*c),
{
    let h = two_digit_string(c.hour);
    let m = two_digit_string(c.minute);
    let r = h.concat(":").concat(m.as_str());
    proof {
        reveal_strlit(":");
        assert(r@ =~= spec_hm(*c));
    }
    r
}

fn year_string(y: i32) -> (s: String)
    ensures
        s@ == spec_year_str(y as int),
{
    if 0 <= y && y <= 9999 {
        let hi = two_digit_string((y / 100) as u8);
        let lo = two_digit_string((y % 100) as u8);
        let r = hi.concat(lo.as_str());
        proof {
            assert(r@ =~= spec_year_str(y as int));
        }
        r
    } else {
        i64_to_string(y as i64)
    }
}

/// Renders "YYYY-MM-DD" for a well-formed timestamp.
pub fn ymd_string(c: &CivilDateTime) -> (s: String)
    requires
        spec_civil_wf(*c),
    ensures
        s@ == spec_ymd(*c),
{
    let y = year_string(c.year);
    let m = two_digit_string(c.month);
    let d = two_digit_string(c.day);
    let r = y.concat("-").concat(m.as_str()).concat("-").concat(d.as_str());
    proof {
        reveal_strlit("-");
        assert(r@ =~= spec_ymd(*c));
    }
    r
}

} // verus!
