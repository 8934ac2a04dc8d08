//! Interval arithmetic: how far `now` has come through a span, as an exact ratio.
//!
//! A `Progress` stands for the percentage `100 * elapsed / total`. It is never clamped:
//! `elapsed` may be negative (the span has not started) or exceed `total` (overrun).
use vstd::prelude::*;
use crate::clock::Instant;

verus! {

/// Bound on the minute counts that a `Progress` holds.
pub const MAX_SPAN: i64 = 1048576;

/// Minutes in one week.
pub const MINUTES_PER_WEEK: i64 = 10080;

/// Minutes in one year of 365 days; leap years are not told apart.
pub const MINUTES_PER_YEAR: i64 = 525600;

/// `n / d` rounded to the nearest integer, halves away from zero (`d > 0`).
pub open spec fn round_div(n: int, d: int) -> int {
    if n >= 0 {
        (2 * n + d) / (2 * d)
    } else {
        -((-2 * n + d) / (2 * d))
    }
}

/// `n / d` rounded toward zero (`d > 0`).
pub open spec fn trunc_div(n: int, d: int) -> int {
    if n >= 0 {
        n / d
    } else {
        -((-n) / d)
    }
}

/// Elapsed and total minutes of a span.
#[derive(Clone, Copy, Debug, PartialEq, Eq, Structural)]
pub struct Progress {
    pub elapsed: i64,
    pub total: i64,
}

impl Progress {
    pub open spec fn wf(self) -> bool {
        &&& 0 < self.total <= MAX_SPAN
        &&& -MAX_SPAN <= self.elapsed <= MAX_SPAN
    }

    /// The percentage is above 100.
    pub open spec fn overflows(self) -> bool {
        self.elapsed > self.total
    }

    /// The percentage is exactly `100`.
    pub open spec fn is_complete(self) -> bool {
        self.elapsed == self.total
    }

    /// The percentage is exactly `0`.
    pub open spec fn is_zero(self) -> bool {
        self.elapsed == 0
    }

    /// The percentage, rounded to a whole number (halves away from zero).
    pub open spec fn rounded(self) -> int {
        round_div(100 * self.elapsed, self.total as int)
    }

    /// The percentage, with its fraction dropped.
    pub open spec fn truncated(self) -> int {
        trunc_div(100 * self.elapsed, self.total as int)
    }

    /// Whether the percentage lies above 100.
    pub fn is_overflowing(&self) -> (r: bool)
        requires
            self.wf(),
        ensures
            r == self.overflows(),
    {
        self.elapsed > self.total
    }

    /// Minutes left until the end of the span; negative once it is overrun.
    pub fn remaining(&self) -> (r: i64)
        requires
            self.wf(),
        ensures
            r == self.total - self.elapsed,
    {
        self.total - self.elapsed
    }

    /// The percentage rounded to a whole number, as a percentage is displayed.
    pub fn rounded_percent(&self) -> (r: i64)
        requires
            self.wf(),
        ensures
            r == self.rounded(),
    {
        let n = 100 * self.elapsed;
        let d = self.total;
        if n >= 0 {
            let q = (2 * n + d) / (2 * d);
            q
        } else {
            let q = (-2 * n + d) / (2 * d);
            -q
        }
    }

    /// The percentage with its fraction dropped.
    pub fn truncated_percent(&self) -> (r: i64)
        requires
            self.wf(),
        ensures
            r == self.truncated(),
    {
        let n = 100 * self.elapsed;
        if n >= 0 {
            n / self.total
        } else {
            let q = (-n) / self.total;
            -q
        }
    }

    /// What is left of the span, as a progress of its own (`100 - p` percent).
    pub fn complement(&self) -> (r: Progress)
        requires
            self.wf(),
            self.elapsed >= 0,
        ensures
            r == (Progress { elapsed: (self.total - self.elapsed) as i64, total: self.total }),
            r.wf(),
    {
        Progress { elapsed: self.total - self.elapsed, total: self.total }
    }
}

/// Progress through the day, midnight to midnight.
pub open spec fn day_span(now: Instant) -> Progress {
    Progress { elapsed: (now.hour * 60 + now.minute) as i64, total: 1440 }
}

/// Progress through the week, Sunday midnight to Sunday midnight.
pub open spec fn week_span(now: Instant) -> Progress {
    Progress { elapsed: (now.weekday * 1440 + now.hour * 60 + now.minute) as i64, total: MINUTES_PER_WEEK }
}

/// Progress through the year, from the first of January, over 365 days.
pub open spec fn year_span(now: Instant) -> Progress {
    Progress {
        elapsed: (now.day_of_year * 1440 + now.hour * 60 + now.minute) as i64,
        total: MINUTES_PER_YEAR,
    }
}

pub fn day_progress(now: &Instant) -> (r: Progress)
    requires
        now.wf(),
    ensures
        r == day_span(*now),
        r.wf(),
        0 <= r.elapsed < r.total,
{
    Progress { elapsed: now.minute_of_day() as i64, total: 1440 }
}

pub fn week_progress(now: &Instant) -> (r: Progress)
    requires
        now.wf(),
    ensures
        r == week_span(*now),
        r.wf(),
        0 <= r.elapsed < r.total,
{
    Progress { elapsed: (now.weekday * 1440 + now.minute_of_day()) as i64, total: MINUTES_PER_WEEK }
}

pub fn year_progress(now: &Instant) -> (r: Progress)
    requires
        now.wf(),
    ensures
        r == year_span(*now),
        r.wf(),
        r.elapsed >= 0,
{
    Progress {
        elapsed: (now.day_of_year * 1440 + now.minute_of_day()) as i64,
        total: MINUTES_PER_YEAR,
    }
}

/// Day landmarks: at midnight the day is at exactly 0 percent, at noon at exactly 50,
/// and at 23:59, its last minute, it shows as 100 once rounded.
pub proof fn lemma_day_landmarks(now: Instant)
    requires
        now.wf(),
    ensures
        now.hour == 0 && now.minute == 0 ==> day_span(now).is_zero() && day_span(now).rounded() == 0,
        now.hour == 12 && now.minute == 0 ==> 2 * day_span(now).elapsed == day_span(now).total
            && day_span(now).rounded() == 50,
        now.hour == 23 && now.minute == 59 ==> day_span(now).rounded() == 100,
{
    if now.hour == 0 && now.minute == 0 {
        assert(day_span(now).elapsed == 0);
        assert((2 * 0 + 1440) / (2 * 1440) == 0int);
    }
}

/// An overflowing progress is shown as it is: its rounded percentage is at least 100,
/// where a bar drawn from it stops at full.
pub proof fn lemma_overflow_shows_true_percent(p: Progress)
    requires
        p.wf(),
        p.overflows(),
    ensures
        p.rounded() >= 100,
        p.truncated() >= 100,
{
    let e = p.elapsed as int;
    let t = p.total as int;
    vstd::arithmetic::div_mod::lemma_div_is_ordered(100 * t, 100 * e, t);
    vstd::arithmetic::div_mod::lemma_div_is_ordered(200 * t, 200 * e + t, 2 * t);
    vstd::arithmetic::div_mod::lemma_div_by_multiple(100, t);
    vstd::arithmetic::div_mod::lemma_div_by_multiple(100, 2 * t);
    assert(200 * t == 100 * (2 * t));
}

} // verus!
