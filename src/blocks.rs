//! User-defined time blocks: named spans between two times of day.
use vstd::prelude::*;
use crate::clock::{clock_of_text, is_clock_text, parse_clock, ClockTime, Instant};
use crate::config::ConfigError;
use crate::progress::Progress;
use crate::text::{decimal, push_decimal};

verus! {

/// A named span of the day; it ends strictly after it starts.
pub struct TimeBlock {
    pub name: String,
    pub start_time: ClockTime,
    pub end_time: ClockTime,
}

impl TimeBlock {
    pub open spec fn wf(self) -> bool {
        &&& self.start_time.wf()
        &&& self.end_time.wf()
        &&& self.start_time.minutes() < self.end_time.minutes()
    }

    /// Progress through the block at `now`: it may be negative before the block starts
    /// and exceed the total once the block is overrun.
    pub open spec fn span_at(self, now: Instant) -> Progress {
        Progress {
            elapsed: (now.minutes() - self.start_time.minutes()) as i64,
            total: (self.end_time.minutes() - self.start_time.minutes()) as i64,
        }
    }
}

/// A time block as the configuration writes it, with `HH:MM` times.
pub struct TimeBlockEntry {
    pub name: String,
    pub start_time: String,
    pub end_time: String,
}

impl TimeBlockEntry {
    /// Both times read as `HH:MM`.
    pub open spec fn times_read(self) -> bool {
        is_clock_text(self.start_time@) && is_clock_text(self.end_time@)
    }

    /// The entry describes a block that ends after it starts.
    pub open spec fn is_valid(self) -> bool {
        self.times_read()
            && clock_of_text(self.start_time@).minutes() < clock_of_text(self.end_time@).minutes()
    }

    /// The block that a valid entry describes.
    pub open spec fn block(self) -> TimeBlock {
        TimeBlock {
            name: self.name,
            start_time: clock_of_text(self.start_time@),
            end_time: clock_of_text(self.end_time@),
        }
    }
}

/// The time block list of the configuration, in display order.
pub struct TimeBlockConfig {
    pub time_blocks: Vec<TimeBlockEntry>,
}

/// The error that a list of entries gets from its first invalid entry, at `i`.
pub open spec fn entry_error(e: TimeBlockEntry, i: usize) -> ConfigError {
    if e.times_read() {
        ConfigError::EmptyBlock { index: i }
    } else {
        ConfigError::BadBlockTime { index: i }
    }
}

/// Validates the time blocks of a configuration and reads their times. The blocks
/// keep the order of the entries; the first invalid entry is reported.
pub fn load_time_blocks(config: &TimeBlockConfig) -> (r: Result<Vec<TimeBlock>, ConfigError>)
    ensures
        r is Ok <==> forall|i: int| 0 <= i < config.time_blocks@.len() ==> #[trigger] config.time_blocks@[i].is_valid(),
        r matches Ok(bs) ==> bs@.len() == config.time_blocks@.len()
            && forall|i: int| 0 <= i < bs@.len() ==> #[trigger] bs@[i] == config.time_blocks@[i].block() && bs@[i].wf(),
        r matches Err(e) ==> exists|i: usize| {
            &&& i < config.time_blocks@.len()
            &&& !config.time_blocks@[i as int].is_valid()
            &&& forall|j: int| 0 <= j < i ==> #[trigger] config.time_blocks@[j].is_valid()
            &&& e == entry_error(config.time_blocks@[i as int], i)
        },
{
    let mut blocks: Vec<TimeBlock> = Vec::new();
    let mut i: usize = 0;
    while i < config.time_blocks.len()
        invariant
            i <= config.time_blocks@.len(),
            blocks@.len() == i,
            forall|j: int| 0 <= j < i ==> #[trigger] config.time_blocks@[j].is_valid(),
            forall|j: int| 0 <= j < i ==> #[trigger] blocks@[j] == config.time_blocks@[j].block() && blocks@[j].wf(),
        decreases config.time_blocks@.len() - i,
    {
        let e = &config.time_blocks[i];
        let start = parse_clock(e.start_time.as_str());
        let end = parse_clock(e.end_time.as_str());
        match (start, end) {
            (Some(s), Some(t)) => {
                if s.minute_of_day() >= t.minute_of_day() {
                    assert(config.time_blocks@[i as int].times_read() && !config.time_blocks@[i as int].is_valid());
                    assert(entry_error(config.time_blocks@[i as int], i) == ConfigError::EmptyBlock { index: i });
                    return Err(ConfigError::EmptyBlock { index: i });
                }
                blocks.push(TimeBlock { name: e.name.clone(), start_time: s, end_time: t });
            },
            _ => {
                assert(!config.time_blocks@[i as int].times_read());
                assert(!config.time_blocks@[i as int].is_valid());
                assert(entry_error(config.time_blocks@[i as int], i) == ConfigError::BadBlockTime { index: i });
                return Err(ConfigError::BadBlockTime { index: i });
            },
        }
        i = i + 1;
    }
    Ok(blocks)
}

/// The remaining-time text of a block: whole hours, then the minutes left over, both
/// from a division of `remaining` minutes that rounds down.
pub open spec fn time_left_text(remaining: int) -> Seq<char> {
    decimal(remaining / 60) + "h "@ + decimal(remaining % 60) + "m left"@
}

/// The progress through `block` at `now`, and the time left as `Hh Mm left`.
pub fn calculate_time_block_progress(now: &Instant, block: &TimeBlock) -> (r: (Progress, String))
    requires
        now.wf(),
        block.wf(),
    ensures
        r.0 == block.span_at(*now),
        r.0.wf(),
        r.1@ == time_left_text(r.0.total - r.0.elapsed),
{
    let start = block.start_time.minute_of_day() as i64;
    let total = block.end_time.minute_of_day() as i64 - start;
    let elapsed = now.minute_of_day() as i64 - start;
    let p = Progress { elapsed, total };
    let remaining = p.remaining();
    let hours: i64 = if remaining >= 0 { remaining / 60 } else { -((-remaining + 59) / 60) };
    let minutes: i64 = remaining - hours * 60;
    proof {
        if remaining < 0 {
            let a = -remaining;
            assert(0 <= minutes < 60 && remaining == hours * 60 + minutes) by (nonlinear_arith)
                requires
                    a > 0,
                    remaining == -a,
                    hours == -((a + 59) / 60),
                    minutes == remaining - hours * 60,
            {
                let q = (a + 59) / 60;
                let m = (a + 59) % 60;
                assert(a + 59 == q * 60 + m);
            }
        } else {
            assert(remaining == hours * 60 + remaining % 60);
        }
        vstd::arithmetic::div_mod::lemma_fundamental_div_mod_converse(remaining as int, 60, hours as int, minutes as int);
    }
    let mut text = String::new();
    push_decimal(&mut text, hours);
    proof { reveal_strlit("h "); }
    text.append("h ");
    push_decimal(&mut text, minutes);
    text.append("m left");
    assert(text@ =~= time_left_text(remaining as int));
    (p, text)
}

/// A block that has run past its end yields a percentage above 100 that is kept as
/// it is, and it counts as overflowing; a block not yet begun yields a negative one.
pub proof fn lemma_block_overrun(b: TimeBlock, now: Instant)
    requires
        b.wf(),
        now.wf(),
    ensures
        now.minutes() > b.end_time.minutes() ==> b.span_at(now).overflows()
            && 100 * b.span_at(now).elapsed > 100 * b.span_at(now).total,
        now.minutes() < b.start_time.minutes() ==> b.span_at(now).elapsed < 0,
        b.span_at(now).wf(),
{
}

} // verus!
