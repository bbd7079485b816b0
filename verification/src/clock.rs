//! The calendar, the system clock and the local time zone, as chrono gives
//! them. Nothing in this file is proved: each function states what is taken
//! on trust from chrono.

use crate::instant::{representable, Instant};
use chrono::{DateTime, Datelike, Local, NaiveDate, NaiveDateTime, TimeZone, Timelike, Utc};
use vstd::prelude::*;

verus! {

/// A date and a time of day as a clock on the wall shows them, with no time
/// zone attached.
#[derive(Clone, Copy, Debug, PartialEq, Eq, Structural)]
pub struct WallClock {
    pub year: i32,
    pub month: u32,
    pub day: u32,
    pub hour: u32,
    pub minute: u32,
    pub second: u32,
}

/// What chrono's `NaiveDateTime::parse_from_str` makes of `text` under the
/// format `pattern`: the date and time it read, or the message of its error.
pub uninterp spec fn pattern_parse(text: Seq<char>, pattern: Seq<char>) -> Result<
    WallClock,
    Seq<char>,
>;

/// The outcome of a parse with its message taken as a sequence of characters.
pub open spec fn parse_view(r: Result<WallClock, String>) -> Result<WallClock, Seq<char>> {
    match r {
        Ok(w) => Ok(w),
        Err(m) => Err(m@),
    }
}

/// Calls chrono's `NaiveDateTime::parse_from_str`. The parse depends on the
/// two strings alone, so its outcome is [`pattern_parse`] of them: the year,
/// month, day, hour, minute and second of the value read, or the text that
/// the error displays.
#[verifier::external_body]
pub(crate) fn parse_wall_clock(text: &str, pattern: &str) -> (r: Result<WallClock, String>)
    ensures
        parse_view(r) == pattern_parse(text@, pattern@),
{
    match NaiveDateTime::parse_from_str(text, pattern) {
        Ok(t) => Ok(WallClock {
            year: t.year(), month: t.month(), day: t.day(),
            hour: t.hour(), minute: t.minute(), second: t.second(),
        }),
        Err(e) => Err(e.to_string()),
    }
}

/// Calls chrono's `Utc::now`: the reading of the system clock, which chrono
/// takes to stand at 1970 or later. Nothing is claimed of the reading but
/// that it is an instant: chrono holds no date and time outside the
/// representable ones.
#[verifier::external_body]
pub(crate) fn now_utc() -> (r: Instant)
    ensures
        r.well_formed(),
{
    let t = Utc::now();
    Instant { secs: t.timestamp(), nanos: t.timestamp_subsec_nanos() }
}

/// Calls chrono's `TimeZone::from_local_datetime` on `Local` and keeps the
/// one instant at which the local clock shows `w`, which
/// `NaiveDate::from_ymd_opt` and `and_hms_opt` hand to it. The answer is
/// `None` where `w` is no date and time at all, and where the zone of this
/// machine shows `w` never or twice. It depends on that zone, so nothing is
/// claimed of it but that it is an instant where there is one.
#[verifier::external_body]
pub(crate) fn resolve_local(w: &WallClock) -> (r: Option<Instant>)
    ensures
        r matches Some(t) ==> t.well_formed(),
{
    let date = NaiveDate::from_ymd_opt(w.year, w.month, w.day)?;
    let naive = date.and_hms_opt(w.hour, w.minute, w.second)?;
    let utc = Local.from_local_datetime(&naive).single()?.with_timezone(&Utc);
    Some(Instant { secs: utc.timestamp(), nanos: utc.timestamp_subsec_nanos() })
}

/// Calls chrono's `DateTime::with_timezone` with `Local` and `format`: the
/// date and the minute that the local clock shows at `t`, as
/// `YYYY-MM-DD HH:MM`. The text depends on the zone of this machine, so
/// nothing is claimed of it. `DateTime::from_timestamp` takes every
/// representable instant, which is why `t` has to be one. The zone data of
/// the machine is taken to hold offsets of less than a day, as chrono itself
/// takes it.
#[verifier::external_body]
pub(crate) fn local_minute_text(t: Instant) -> (r: String)
    requires
        representable(t.seconds(), t.nanos()),
{
    let utc = DateTime::from_timestamp(t.secs, t.nanos).unwrap();
    utc.with_timezone(&Local).format("%Y-%m-%d %H:%M").to_string()
}

} // verus!
