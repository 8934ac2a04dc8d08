//! Clock readings: a time of day, and the local instant that one tick works with.
use vstd::prelude::*;

verus! {

/// A time of day with minute resolution.
#[derive(Clone, Copy, Debug, PartialEq, Eq, Structural)]
pub struct ClockTime {
    pub hour: u32,
    pub minute: u32,
}

impl ClockTime {
    pub open spec fn wf(self) -> bool {
        self.hour < 24 && self.minute < 60
    }

    /// Minutes since midnight.
    pub open spec fn minutes(self) -> int {
        self.hour * 60 + self.minute
    }

    pub fn minute_of_day(&self) -> (r: u32)
        requires
            self.wf(),
        ensures
            r == self.minutes(),
            r < 1440,
    {
        self.hour * 60 + self.minute
    }
}

/// What `NaiveTime::parse_from_str(s, "%H:%M")` yields for `s`, as hour and minute.
pub uninterp spec fn parsed_clock(s: Seq<char>) -> Option<(u32, u32)>;

/// Relies on chrono's `NaiveTime::parse_from_str` with the format `%H:%M`: the result
/// depends on the text alone, and a parsed time has an hour in 0..=23 and a minute in
/// 0..=59 (`Timelike::hour`, `Timelike::minute`).
#[verifier::external_body]
fn parse_hh_mm(s: &str) -> (r: Option<(u32, u32)>)
    ensures
        r == parsed_clock(s@),
        r matches Some((h, m)) ==> h < 24 && m < 60,
{
    match chrono::NaiveTime::parse_from_str(s, "%H:%M") {
        Ok(t) => Some((chrono::Timelike::hour(&t), chrono::Timelike::minute(&t))),
        Err(_) => None,
    }
}

/// Whether `s` reads as an `HH:MM` time of day.
pub open spec fn is_clock_text(s: Seq<char>) -> bool {
    parsed_clock(s) is Some
}

/// The time of day that `s` reads as; meaningful where `is_clock_text(s)`.
pub open spec fn clock_of_text(s: Seq<char>) -> ClockTime {
    match parsed_clock(s) {
        Some((h, m)) => ClockTime { hour: h, minute: m },
        None => ClockTime { hour: 0, minute: 0 },
    }
}

/// Reads an `HH:MM` time of day.
pub fn parse_clock(s: &str) -> (r: Option<ClockTime>)
    ensures
        r is Some <==> is_clock_text(s@),
        r matches Some(c) ==> c == clock_of_text(s@) && c.wf(),
{
    match parse_hh_mm(s) {
        Some((h, m)) => Some(ClockTime { hour: h, minute: m }),
        None => None,
    }
}

/// One reading of the local clock, as the dashboard uses it.
#[derive(Clone, Copy, Debug, PartialEq, Eq, Structural)]
pub struct Instant {
    pub year: i32,
    /// 1..=12
    pub month: u32,
    /// 1..=31
    pub day: u32,
    /// Days since the most recent Sunday, 0..=6.
    pub weekday: u32,
    /// ISO 8601 week number, 1..=53.
    pub iso_week: u32,
    /// Days since the first of January, 0..=365.
    pub day_of_year: u32,
    pub hour: u32,
    pub minute: u32,
}

impl Instant {
    pub open spec fn wf(self) -> bool {
        &&& 1 <= self.month <= 12
        &&& 1 <= self.day <= 31
        &&& self.weekday < 7
        &&& 1 <= self.iso_week <= 53
        &&& self.day_of_year < 366
        &&& self.hour < 24
        &&& self.minute < 60
    }

    /// Minutes since midnight.
    pub open spec fn minutes(self) -> int {
        self.hour * 60 + self.minute
    }

    pub fn minute_of_day(&self) -> (r: u32)
        requires
            self.wf(),
        ensures
            r == self.minutes(),
            r < 1440,
    {
        self.hour * 60 + self.minute
    }
}

} // verus!
