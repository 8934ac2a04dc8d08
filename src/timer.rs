//! Deadline timers: a target time of day, active until it is reached.
use vstd::prelude::*;
use crate::clock::{clock_of_text, is_clock_text, parse_clock, Instant};
use crate::config::ConfigError;
use crate::progress::Progress;

verus! {

/// A named deadline at a time of day, with a message to show beside it.
pub struct Timer {
    pub name: String,
    /// `HH:MM`
    pub time: String,
    pub message: String,
    pub repeat: String,
}

impl Clone for Timer {
    fn clone(&self) -> (r: Self)
        ensures
            r == *self,
    {
        Timer {
            name: self.name.clone(),
            time: self.time.clone(),
            message: self.message.clone(),
            repeat: self.repeat.clone(),
        }
    }
}

impl Timer {
    /// The time reads as `HH:MM`.
    pub open spec fn has_valid_time(self) -> bool {
        is_clock_text(self.time@)
    }

    /// Minutes from midnight to the target time.
    pub open spec fn target_minutes(self) -> int {
        clock_of_text(self.time@).minutes()
    }

    /// Active while the time of day lies before the target; the date plays no part.
    pub open spec fn active_at(self, now: Instant) -> bool {
        now.minutes() < self.target_minutes()
    }

    /// Progress from midnight toward the target, complete once the target is reached.
    pub open spec fn progress_at(self, now: Instant) -> Progress {
        if now.minutes() >= self.target_minutes() {
            Progress { elapsed: 1, total: 1 }
        } else {
            Progress { elapsed: now.minutes() as i64, total: self.target_minutes() as i64 }
        }
    }

    pub fn is_active(&self, now: &Instant) -> (r: bool)
        requires
            self.has_valid_time(),
            now.wf(),
        ensures
            r == self.active_at(*now),
    {
        let target = parse_clock(self.time.as_str());
        match target {
            Some(t) => now.minute_of_day() < t.minute_of_day(),
            None => false,
        }
    }

    pub fn progress(&self, now: &Instant) -> (r: Progress)
        requires
            self.has_valid_time(),
            now.wf(),
        ensures
            r == self.progress_at(*now),
            r.wf(),
            0 <= r.elapsed <= r.total,
            r.is_complete() <==> !self.active_at(*now),
    {
        let target = parse_clock(self.time.as_str());
        match target {
            Some(t) => {
                let current = now.minute_of_day();
                let goal = t.minute_of_day();
                if current >= goal {
                    Progress { elapsed: 1, total: 1 }
                } else {
                    Progress { elapsed: current as i64, total: goal as i64 }
                }
            },
            None => Progress { elapsed: 1, total: 1 },
        }
    }
}

/// The timers of a session; each one's time reads as `HH:MM`.
pub struct TimerConfig {
    timers: Vec<Timer>,
}

/// Whether every timer's time reads as `HH:MM`.
pub open spec fn all_valid(ts: Seq<Timer>) -> bool {
    forall|i: int| 0 <= i < ts.len() ==> #[trigger] ts[i].has_valid_time()
}

/// The first index whose timer's time does not read as `HH:MM`, where one exists.
pub open spec fn first_bad_timer(ts: Seq<Timer>, i: int) -> bool {
    &&& 0 <= i < ts.len()
    &&& !ts[i].has_valid_time()
    &&& forall|j: int| 0 <= j < i ==> #[trigger] ts[j].has_valid_time()
}

impl TimerConfig {
    #[verifier::type_invariant]
    spec fn inv(self) -> bool {
        all_valid(self.timers@)
    }

    /// The timers, in the order they were given.
    pub closed spec fn entries(self) -> Seq<Timer> {
        self.timers@
    }

    pub fn timers(&self) -> (r: &Vec<Timer>)
        ensures
            r@ == self.entries(),
            all_valid(r@),
    {
        proof { use_type_invariant(self); }
        &self.timers
    }
}

/// Validates a timer list: it must hold at least one timer, and each time must read
/// as `HH:MM`; the first timer that does not is reported.
pub fn load_timer_config(timers: Vec<Timer>) -> (r: Result<TimerConfig, ConfigError>)
    ensures
        r is Ok <==> timers@.len() > 0 && all_valid(timers@),
        r matches Ok(c) ==> c.entries() == timers@,
        r == Err::<TimerConfig, ConfigError>(ConfigError::NoTimers) <==> timers@.len() == 0,
        r matches Err(ConfigError::BadTimerTime { index }) ==> first_bad_timer(timers@, index as int),
        r matches Err(e) ==> (e == ConfigError::NoTimers || e is BadTimerTime),
{
    if timers.len() == 0 {
        return Err(ConfigError::NoTimers);
    }
    let mut i: usize = 0;
    while i < timers.len()
        invariant
            i <= timers@.len(),
            forall|j: int| 0 <= j < i ==> #[trigger] timers@[j].has_valid_time(),
        decreases timers@.len() - i,
    {
        if parse_clock(timers[i].time.as_str()).is_none() {
            assert(!timers@[i as int].has_valid_time());
            return Err(ConfigError::BadTimerTime { index: i });
        }
        i = i + 1;
    }
    Ok(TimerConfig { timers })
}

/// The timers of `ts` that are active at `now`, in their order.
pub open spec fn active_timers(ts: Seq<Timer>, now: Instant) -> Seq<Timer>
    decreases ts.len(),
{
    if ts.len() == 0 {
        Seq::empty()
    } else {
        let rest = active_timers(ts.drop_last(), now);
        if ts.last().active_at(now) { rest.push(ts.last()) } else { rest }
    }
}

/// The timers of `ts` that are completed at `now`, in their order.
pub open spec fn completed_timers(ts: Seq<Timer>, now: Instant) -> Seq<Timer>
    decreases ts.len(),
{
    if ts.len() == 0 {
        Seq::empty()
    } else {
        let rest = completed_timers(ts.drop_last(), now);
        if ts.last().active_at(now) { rest } else { rest.push(ts.last()) }
    }
}

/// Splits the timers into those still active at `now` and those completed, each in
/// the order of the configuration.
pub fn partition_timers(now: &Instant, config: &TimerConfig) -> (r: (Vec<Timer>, Vec<Timer>))
    requires
        now.wf(),
    ensures
        r.0@ == active_timers(config.entries(), *now),
        r.1@ == completed_timers(config.entries(), *now),
        all_valid(r.0@),
        all_valid(r.1@),
{
    let timers = config.timers();
    let mut active: Vec<Timer> = Vec::new();
    let mut completed: Vec<Timer> = Vec::new();
    let mut i: usize = 0;
    while i < timers.len()
        invariant
            i <= timers@.len(),
            all_valid(timers@),
            active@ == active_timers(timers@.subrange(0, i as int), *now),
            completed@ == completed_timers(timers@.subrange(0, i as int), *now),
            all_valid(active@),
            all_valid(completed@),
            now.wf(),
        decreases timers@.len() - i,
    {
        let t = timers[i].clone();
        let ghost prefix = timers@.subrange(0, i as int);
        let ghost next = timers@.subrange(0, i + 1);
        assert(next.drop_last() =~= prefix);
        assert(next.last() == timers@[i as int]);
        assert(timers@[i as int].has_valid_time());
        if t.is_active(now) {
            active.push(t);
        } else {
            completed.push(t);
        }
        i = i + 1;
    }
    assert(timers@.subrange(0, timers@.len() as int) =~= timers@);
    (active, completed)
}

/// A timer is active strictly before its target time of day and completed from then
/// on, when its progress is exactly 100 percent; before the target, it is below 100.
pub proof fn lemma_timer_target(t: Timer, now: Instant)
    requires
        t.has_valid_time(),
        now.wf(),
    ensures
        now.minutes() < t.target_minutes() ==> t.active_at(now) && !t.progress_at(now).is_complete()
            && t.progress_at(now).elapsed < t.progress_at(now).total,
        now.minutes() >= t.target_minutes() ==> !t.active_at(now) && t.progress_at(now).is_complete(),
{
}

} // verus!
