//! Frame composition: the lines each view shows, built from the interval arithmetic,
//! the bars and the registries. Every function here appends to a frame and reads
//! nothing else.
use vstd::prelude::*;
use crate::bar::{cells, filled_for, push_bar, repeat_glyph, ProgressBar, BAR_WIDTH};
use crate::blocks::{calculate_time_block_progress, time_left_text, TimeBlock};
use crate::clock::Instant;
use crate::frame::{blank, frame_view, present, single, span, Color, Line, Span, Style};
use crate::progress::{day_progress, day_span, week_progress, week_span, year_progress, year_span, Progress};
use crate::text::{decimal, padded, push_decimal, push_padded};
use crate::timer::{active_timers, all_valid, completed_timers, partition_timers, Timer, TimerConfig};
use crate::view::AppState;

verus! {

/// The abbreviated English name of a weekday, counted from Sunday.
pub open spec fn weekday_abbrev(w: u32) -> Seq<char> {
    if w == 0 { "Sun"@ } else if w == 1 { "Mon"@ } else if w == 2 { "Tue"@ }
    else if w == 3 { "Wed"@ } else if w == 4 { "Thu"@ } else if w == 5 { "Fri"@ }
    else { "Sat"@ }
}

pub fn weekday_name(w: u32) -> (r: &'static str)
    ensures
        r@ == weekday_abbrev(w),
{
    if w == 0 { "Sun" } else if w == 1 { "Mon" } else if w == 2 { "Tue" }
    else if w == 3 { "Wed" } else if w == 4 { "Thu" } else if w == 5 { "Fri" }
    else { "Sat" }
}

pub open spec fn plain() -> Style {
    Style::spec_of(Color::Normal, false)
}

/// The bar that a progress is drawn with.
pub open spec fn bar_of(p: Progress) -> ProgressBar {
    ProgressBar { length: filled_for(p) as usize, overflow: p.overflows() }
}

/// `head`, then the bar of `p`, then a closing bracket, on a line in style `st`.
pub open spec fn bar_line(head: Seq<char>, p: Progress, st: Style) -> Seq<(Seq<char>, Style)> {
    seq![(head, st)] + bar_of(p).spans_of(st) + seq![("]"@, st)]
}

fn make_bar_line(head: String, p: &Progress, st: Style) -> (r: Line)
    requires
        p.wf(),
    ensures
        r@ == bar_line(head@, *p, st),
{
    let ghost h = head@;
    let mut line = single(head, st);
    let bar = ProgressBar::new(p);
    push_bar(&mut line, &bar, st);
    let ghost before = line@;
    line.spans.push(span(String::from_str("]"), st));
    assert(line@ =~= before.push(("]"@, st)));
    assert(line@ =~= bar_line(h, *p, st));
    line
}

/// A one-line title and a rule under it, both blue.
pub open spec fn header_lines(title: Seq<char>) -> Seq<Seq<(Seq<char>, Style)>> {
    seq![
        seq![(title, Style::spec_of(Color::Blue, true))],
        seq![(cells('═', 50), Style::spec_of(Color::Blue, false))],
    ]
}

fn push_line(frame: &mut Vec<Line>, line: Line)
    ensures
        frame_view(final(frame)@) == frame_view(old(frame)@).push(line@),
{
    frame.push(line);
    assert(frame_view(final(frame)@) =~= frame_view(old(frame)@).push(line@));
}

fn push_header(frame: &mut Vec<Line>, title: &str)
    ensures
        frame_view(final(frame)@) == frame_view(old(frame)@) + header_lines(title@),
{
    let ghost start = frame_view(frame@);
    push_line(frame, single(String::from_str(title), Style::of(Color::Blue, true)));
    proof { reveal_strlit("═"); }
    let rule = repeat_glyph("═", BAR_WIDTH);
    push_line(frame, single(rule, Style::of(Color::Blue, false)));
    assert(frame_view(frame@) =~= start + header_lines(title@));
}

// ---- main view ----

/// `TIME: HH:MM`, red and bold.
pub open spec fn time_line(now: Instant) -> Seq<(Seq<char>, Style)> {
    seq![("TIME: "@ + padded(now.hour as int, 2) + ":"@ + padded(now.minute as int, 2), Style::spec_of(Color::Red, true))]
}

/// `DATE: DD/MM/YYYY`, blue and bold.
pub open spec fn date_line(now: Instant) -> Seq<(Seq<char>, Style)> {
    seq![(
        "DATE: "@ + padded(now.day as int, 2) + "/"@ + padded(now.month as int, 2) + "/"@ + padded(now.year as int, 4),
        Style::spec_of(Color::Blue, true),
    )]
}

/// The progress that a calendar line shows: time passed, or time left.
pub open spec fn shown(p: Progress, show_remaining: bool) -> Progress {
    if show_remaining {
        Progress { elapsed: (p.total - p.elapsed) as i64, total: p.total }
    } else {
        p
    }
}

/// `][NN%][`: the rounded percentage between the tag and the bar.
pub open spec fn percent_field(p: Progress) -> Seq<char> {
    "]["@ + padded(p.rounded(), 2) + "%]["@
}

pub open spec fn day_line(now: Instant, show_remaining: bool) -> Seq<(Seq<char>, Style)> {
    let p = shown(day_span(now), show_remaining);
    let label = if show_remaining { "Day Missing: ["@ } else { "Day Progress: ["@ };
    bar_line(label + weekday_abbrev(now.weekday) + percent_field(p), p, Style::spec_of(Color::Green, true))
}

pub open spec fn week_line(now: Instant, show_remaining: bool) -> Seq<(Seq<char>, Style)> {
    let p = shown(week_span(now), show_remaining);
    let label = if show_remaining { "Week Left: [W:"@ } else { "Week Progress: [W:"@ };
    bar_line(label + padded(now.iso_week as int, 2) + percent_field(p), p, Style::spec_of(Color::Yellow, true))
}

pub open spec fn year_line(now: Instant, show_remaining: bool) -> Seq<(Seq<char>, Style)> {
    let p = shown(year_span(now), show_remaining);
    let label = if show_remaining { "Year Left: [Y:"@ } else { "Year Progress: [Y:"@ };
    bar_line(label + padded(now.year as int, 4) + percent_field(p), p, Style::spec_of(Color::Magenta, true))
}

/// Clock, date, and the day, week and year lines.
pub open spec fn main_view(now: Instant, show_remaining: bool) -> Seq<Seq<(Seq<char>, Style)>> {
    seq![
        time_line(now),
        date_line(now),
        day_line(now, show_remaining),
        week_line(now, show_remaining),
        year_line(now, show_remaining),
    ]
}

pub fn render_time_and_date(frame: &mut Vec<Line>, now: &Instant)
    ensures
        frame_view(final(frame)@) == frame_view(old(frame)@).push(time_line(*now)).push(date_line(*now)),
{
    let mut time_text = String::from_str("TIME: ");
    push_padded(&mut time_text, now.hour as i64, 2);
    time_text.append(":");
    push_padded(&mut time_text, now.minute as i64, 2);
    let mut date_text = String::from_str("DATE: ");
    push_padded(&mut date_text, now.day as i64, 2);
    date_text.append("/");
    push_padded(&mut date_text, now.month as i64, 2);
    date_text.append("/");
    push_padded(&mut date_text, now.year as i64, 4);
    push_line(frame, single(time_text, Style::of(Color::Red, true)));
    push_line(frame, single(date_text, Style::of(Color::Blue, true)));
}

/// Appends a calendar line: `label`, the `tag` text, the percentage and the bar.
fn push_calendar_line(frame: &mut Vec<Line>, label: &str, tag: String, span_progress: &Progress, show_remaining: bool, st: Style)
    requires
        span_progress.wf(),
        span_progress.elapsed >= 0,
    ensures
        frame_view(final(frame)@) == frame_view(old(frame)@).push(
            bar_line(label@ + tag@ + percent_field(shown(*span_progress, show_remaining)), shown(*span_progress, show_remaining), st),
        ),
{
    let p = if show_remaining { span_progress.complement() } else { *span_progress };
    let mut head = String::from_str(label);
    head.append(tag.as_str());
    head.append("][");
    push_padded(&mut head, p.rounded_percent(), 2);
    head.append("%][");
    assert(head@ =~= label@ + tag@ + percent_field(p));
    push_line(frame, make_bar_line(head, &p, st));
}

pub fn render_day_progress(frame: &mut Vec<Line>, now: &Instant, show_remaining: bool)
    requires
        now.wf(),
    ensures
        frame_view(final(frame)@) == frame_view(old(frame)@).push(day_line(*now, show_remaining)),
{
    let p = day_progress(now);
    let label = if show_remaining { "Day Missing: [" } else { "Day Progress: [" };
    let tag = String::from_str(weekday_name(now.weekday));
    push_calendar_line(frame, label, tag, &p, show_remaining, Style::of(Color::Green, true));
}

pub fn render_week_progress(frame: &mut Vec<Line>, now: &Instant, show_remaining: bool)
    requires
        now.wf(),
    ensures
        frame_view(final(frame)@) == frame_view(old(frame)@).push(week_line(*now, show_remaining)),
{
    let p = week_progress(now);
    let label = if show_remaining { "Week Left: [W:" } else { "Week Progress: [W:" };
    let mut tag = String::new();
    push_padded(&mut tag, now.iso_week as i64, 2);
    push_calendar_line(frame, label, tag, &p, show_remaining, Style::of(Color::Yellow, true));
}

pub fn render_year_progress(frame: &mut Vec<Line>, now: &Instant, show_remaining: bool)
    requires
        now.wf(),
    ensures
        frame_view(final(frame)@) == frame_view(old(frame)@).push(year_line(*now, show_remaining)),
{
    let p = year_progress(now);
    let label = if show_remaining { "Year Left: [Y:" } else { "Year Progress: [Y:" };
    let mut tag = String::new();
    push_padded(&mut tag, now.year as i64, 4);
    push_calendar_line(frame, label, tag, &p, show_remaining, Style::of(Color::Magenta, true));
}

pub fn render_main_view(frame: &mut Vec<Line>, now: &Instant, show_remaining: bool)
    requires
        now.wf(),
    ensures
        frame_view(final(frame)@) == frame_view(old(frame)@) + main_view(*now, show_remaining),
{
    let ghost start = frame_view(frame@);
    render_time_and_date(frame, now);
    render_day_progress(frame, now, show_remaining);
    render_week_progress(frame, now, show_remaining);
    render_year_progress(frame, now, show_remaining);
    assert(frame_view(frame@) =~= start + main_view(*now, show_remaining));
}

// ---- time blocks ----

/// `name: [NN%][Hh Mm left][bar]` in the terminal's own style.
pub open spec fn block_line(now: Instant, b: TimeBlock) -> Seq<(Seq<char>, Style)> {
    let p = b.span_at(now);
    bar_line(
        b.name@ + ": ["@ + padded(p.rounded(), 2) + "%]["@ + time_left_text(p.total - p.elapsed) + "]["@,
        p,
        plain(),
    )
}

/// One line per block, in order.
pub open spec fn block_lines(now: Instant, bs: Seq<TimeBlock>) -> Seq<Seq<(Seq<char>, Style)>>
    decreases bs.len(),
{
    if bs.len() == 0 {
        Seq::empty()
    } else {
        block_lines(now, bs.drop_last()).push(block_line(now, bs.last()))
    }
}

/// The time blocks screen: a header, then each block.
pub open spec fn time_blocks_view(now: Instant, bs: Seq<TimeBlock>) -> Seq<Seq<(Seq<char>, Style)>> {
    header_lines("Time Blocks"@) + block_lines(now, bs)
}

/// Every block ends after it starts.
pub open spec fn blocks_wf(bs: Seq<TimeBlock>) -> bool {
    forall|i: int| 0 <= i < bs.len() ==> #[trigger] bs[i].wf()
}

pub fn render_time_blocks_view(frame: &mut Vec<Line>, now: &Instant, blocks: &Vec<TimeBlock>)
    requires
        now.wf(),
        blocks_wf(blocks@),
    ensures
        frame_view(final(frame)@) == frame_view(old(frame)@) + time_blocks_view(*now, blocks@),
{
    let ghost start = frame_view(frame@);
    push_header(frame, "Time Blocks");
    let ghost head = frame_view(frame@);
    let mut i: usize = 0;
    while i < blocks.len()
        invariant
            i <= blocks@.len(),
            now.wf(),
            blocks_wf(blocks@),
            frame_view(frame@) == head + block_lines(*now, blocks@.subrange(0, i as int)),
        decreases blocks@.len() - i,
    {
        let block = &blocks[i];
        let (p, left) = calculate_time_block_progress(now, block);
        let mut text = String::from_str(block.name.as_str());
        text.append(": [");
        push_padded(&mut text, p.rounded_percent(), 2);
        text.append("%][");
        text.append(left.as_str());
        text.append("][");
        assert(text@ =~= block.name@ + ": ["@ + padded(p.rounded(), 2) + "%]["@ + time_left_text(p.total - p.elapsed) + "]["@);
        push_line(frame, make_bar_line(text, &p, Style::of(Color::Normal, false)));
        assert(blocks@.subrange(0, i + 1).drop_last() =~= blocks@.subrange(0, i as int));
        i = i + 1;
    }
    assert(blocks@.subrange(0, blocks@.len() as int) =~= blocks@);
    assert(frame_view(frame@) =~= start + time_blocks_view(*now, blocks@));
}

// ---- time limits ----

/// The two lines of an active timer: name, target, whole percentage and bar in yellow,
/// then its message.
pub open spec fn active_timer_lines(now: Instant, t: Timer) -> Seq<Seq<(Seq<char>, Style)>> {
    let p = t.progress_at(now);
    seq![
        bar_line(t.name@ + ": "@ + t.time@ + " - "@ + decimal(p.truncated()) + "% ["@, p, Style::spec_of(Color::Yellow, false)),
        seq![("Message: "@, plain()), (t.message@, Style::spec_of(Color::White, false))],
    ]
}

/// The line of a completed timer: name, target and message, dimmed.
pub open spec fn completed_timer_line(t: Timer) -> Seq<(Seq<char>, Style)> {
    seq![(t.name@ + ": "@ + t.time@ + " - "@ + t.message@, Style::spec_dimmed())]
}

pub open spec fn active_lines(now: Instant, ts: Seq<Timer>) -> Seq<Seq<(Seq<char>, Style)>>
    decreases ts.len(),
{
    if ts.len() == 0 {
        Seq::empty()
    } else {
        active_lines(now, ts.drop_last()) + active_timer_lines(now, ts.last())
    }
}

pub open spec fn completed_lines(ts: Seq<Timer>) -> Seq<Seq<(Seq<char>, Style)>>
    decreases ts.len(),
{
    if ts.len() == 0 {
        Seq::empty()
    } else {
        completed_lines(ts.drop_last()).push(completed_timer_line(ts.last()))
    }
}

/// The time limits screen. With no timers at all it says so; otherwise it lists the
/// active timers, then, if there are any, the completed ones.
pub open spec fn time_limit_view(now: Instant, ts: Seq<Timer>) -> Seq<Seq<(Seq<char>, Style)>> {
    let active = active_timers(ts, now);
    let completed = completed_timers(ts, now);
    header_lines("Time Limits"@) + if ts.len() == 0 {
        seq![
            Seq::empty(),
            seq![("No timers configured."@, Style::spec_of(Color::Yellow, false))],
            seq![("Add timers to timers.toml to get started."@, plain())],
        ]
    } else {
        seq![seq![("Active Timers:"@, Style::spec_of(Color::Green, true))]] + active_lines(now, active) + if completed.len() > 0 {
            seq![Seq::empty(), seq![("Completed Timers:"@, Style::spec_of(Color::Red, true))]] + completed_lines(completed)
        } else {
            Seq::empty()
        }
    }
}

pub proof fn lemma_partition_sizes(ts: Seq<Timer>, now: Instant)
    ensures
        active_timers(ts, now).len() + completed_timers(ts, now).len() == ts.len(),
    decreases ts.len(),
{
    if ts.len() > 0 {
        lemma_partition_sizes(ts.drop_last(), now);
    }
}

fn push_active_timer(frame: &mut Vec<Line>, now: &Instant, t: &Timer)
    requires
        now.wf(),
        t.has_valid_time(),
    ensures
        frame_view(final(frame)@) == frame_view(old(frame)@) + active_timer_lines(*now, *t),
{
    let ghost start = frame_view(frame@);
    let p = t.progress(now);
    let mut text = String::from_str(t.name.as_str());
    text.append(": ");
    text.append(t.time.as_str());
    text.append(" - ");
    push_decimal(&mut text, p.truncated_percent());
    text.append("% [");
    assert(text@ =~= t.name@ + ": "@ + t.time@ + " - "@ + decimal(p.truncated()) + "% ["@);
    push_line(frame, make_bar_line(text, &p, Style::of(Color::Yellow, false)));
    let mut spans: Vec<Span> = Vec::new();
    spans.push(span(String::from_str("Message: "), Style::of(Color::Normal, false)));
    spans.push(span(t.message.clone(), Style::of(Color::White, false)));
    let message = Line { spans };
    assert(message@ =~= seq![("Message: "@, plain()), (t.message@, Style::spec_of(Color::White, false))]);
    push_line(frame, message);
    assert(frame_view(frame@) =~= start + active_timer_lines(*now, *t));
}

pub fn render_time_limit_view(frame: &mut Vec<Line>, now: &Instant, config: &TimerConfig)
    requires
        now.wf(),
    ensures
        frame_view(final(frame)@) == frame_view(old(frame)@) + time_limit_view(*now, config.entries()),
{
    let ghost start = frame_view(frame@);
    let (active, completed) = partition_timers(now, config);
    proof { lemma_partition_sizes(config.entries(), *now); }
    push_header(frame, "Time Limits");
    let ghost head = frame_view(frame@);
    if active.len() == 0 && completed.len() == 0 {
        push_line(frame, blank());
        push_line(frame, single(String::from_str("No timers configured."), Style::of(Color::Yellow, false)));
        push_line(frame, single(String::from_str("Add timers to timers.toml to get started."), Style::of(Color::Normal, false)));
        assert(frame_view(frame@) =~= start + time_limit_view(*now, config.entries()));
        return;
    }
    push_line(frame, single(String::from_str("Active Timers:"), Style::of(Color::Green, true)));
    let ghost listed = frame_view(frame@);
    let mut i: usize = 0;
    while i < active.len()
        invariant
            i <= active@.len(),
            now.wf(),
            all_valid(active@),
            frame_view(frame@) == listed + active_lines(*now, active@.subrange(0, i as int)),
        decreases active@.len() - i,
    {
        assert(active@[i as int].has_valid_time());
        push_active_timer(frame, now, &active[i]);
        assert(active@.subrange(0, i + 1).drop_last() =~= active@.subrange(0, i as int));
        i = i + 1;
    }
    assert(active@.subrange(0, active@.len() as int) =~= active@);
    let ghost after_active = frame_view(frame@);
    if completed.len() > 0 {
        push_line(frame, blank());
        push_line(frame, single(String::from_str("Completed Timers:"), Style::of(Color::Red, true)));
        let ghost titled = frame_view(frame@);
        let mut k: usize = 0;
        while k < completed.len()
            invariant
                k <= completed@.len(),
                frame_view(frame@) == titled + completed_lines(completed@.subrange(0, k as int)),
            decreases completed@.len() - k,
        {
            let t = &completed[k];
            let mut text = String::from_str(t.name.as_str());
            text.append(": ");
            text.append(t.time.as_str());
            text.append(" - ");
            text.append(t.message.as_str());
            push_line(frame, single(text, Style::dimmed()));
            assert(completed@.subrange(0, k + 1).drop_last() =~= completed@.subrange(0, k as int));
            k = k + 1;
        }
        assert(completed@.subrange(0, completed@.len() as int) =~= completed@);
    }
    assert(frame_view(frame@) =~= start + time_limit_view(*now, config.entries()));
}

// ---- whole frames ----

/// The frame of a tick: the main screen also lists the time blocks under the calendar.
pub open spec fn compose(state: AppState, now: Instant, bs: Seq<TimeBlock>, ts: Seq<Timer>) -> Seq<Seq<(Seq<char>, Style)>> {
    match state.current_view {
        crate::view::View::Main => main_view(now, state.show_remaining) + time_blocks_view(now, bs),
        crate::view::View::TimeLimit => time_limit_view(now, ts),
        crate::view::View::TimeBlocks => time_blocks_view(now, bs),
    }
}

/// Builds the frame for the selected view.
pub fn compose_frame(app_state: &AppState, now: &Instant, blocks: &Vec<TimeBlock>, timers: &TimerConfig) -> (r: Vec<Line>)
    requires
        now.wf(),
        blocks_wf(blocks@),
    ensures
        frame_view(r@) == compose(*app_state, *now, blocks@, timers.entries()),
{
    let mut frame: Vec<Line> = Vec::new();
    match app_state.current_view {
        crate::view::View::Main => {
            render_main_view(&mut frame, now, app_state.show_remaining);
            render_time_blocks_view(&mut frame, now, blocks);
        },
        crate::view::View::TimeLimit => render_time_limit_view(&mut frame, now, timers),
        crate::view::View::TimeBlocks => render_time_blocks_view(&mut frame, now, blocks),
    }
    assert(frame_view(frame@) =~= compose(*app_state, *now, blocks@, timers.entries()));
    frame
}

/// One tick of drawing: composes the frame of the selected view and presents it over
/// the last frame drawn. Returns whether `last_buffer`, which now holds the new frame,
/// must be written to the terminal; an unchanged frame asks for no write.
pub fn render_view(app_state: &AppState, now: &Instant, blocks: &Vec<TimeBlock>, timers: &TimerConfig, last_buffer: &mut Vec<Line>) -> (drawn: bool)
    requires
        now.wf(),
        blocks_wf(blocks@),
    ensures
        drawn == (compose(*app_state, *now, blocks@, timers.entries()) != frame_view(old(last_buffer)@)),
        drawn ==> frame_view(final(last_buffer)@) == compose(*app_state, *now, blocks@, timers.entries()),
        !drawn ==> final(last_buffer)@ == old(last_buffer)@,
{
    let frame = compose_frame(app_state, now, blocks, timers);
    present(frame, last_buffer)
}

/// Rendering the same tick twice, with no input and no change of time in between,
/// writes to the terminal at most once: whatever the first call decided, the frame
/// that it leaves as the baseline is the one the second call composes.
pub proof fn lemma_render_twice_writes_once(
    state: AppState,
    now: Instant,
    bs: Seq<TimeBlock>,
    ts: Seq<Timer>,
    last: Seq<Line>,
    after: Seq<Line>,
)
    requires
        compose(state, now, bs, ts) != frame_view(last) ==> frame_view(after) == compose(state, now, bs, ts),
        compose(state, now, bs, ts) == frame_view(last) ==> after == last,
    ensures
        compose(state, now, bs, ts) == frame_view(after),
{
}

} // verus!
