use progress_clock::blocks::TimeBlock;
use progress_clock::clock::{ClockTime, Instant};
use progress_clock::compose::{compose_frame, render_main_view, render_time_limit_view, render_view, weekday_name};
use progress_clock::config::ConfigError;
use progress_clock::frame::{present, Color, Line, Style};
use progress_clock::timer::{load_timer_config, partition_timers, Timer};
use progress_clock::view::{AppState, View};

fn at(hour: u32, minute: u32) -> Instant {
    Instant { year: 2025, month: 3, day: 7, weekday: 5, iso_week: 10, day_of_year: 65, hour, minute }
}

fn text(line: &Line) -> String {
    line.spans.iter().map(|s| s.text.as_str()).collect()
}

fn timer(name: &str, time: &str) -> Timer {
    Timer { name: name.to_string(), time: time.to_string(), message: format!("{} done", name), repeat: "daily".to_string() }
}

fn blocks() -> Vec<TimeBlock> {
    vec![TimeBlock {
        name: "Work".to_string(),
        start_time: ClockTime { hour: 9, minute: 0 },
        end_time: ClockTime { hour: 17, minute: 0 },
    }]
}

#[test]
fn main_view_lines() {
    let mut frame = Vec::new();
    render_main_view(&mut frame, &at(9, 5), false);
    assert_eq!(frame.len(), 5);
    assert_eq!(text(&frame[0]), "TIME: 09:05");
    assert_eq!(frame[0].spans[0].style, Style { color: Color::Red, bold: true, dimmed: false });
    assert_eq!(text(&frame[1]), "DATE: 07/03/2025");
    let day = text(&frame[2]);
    assert!(day.starts_with("Day Progress: [Fri][38%]["), "{}", day);
    assert!(text(&frame[3]).starts_with("Week Progress: [W:10][77%]["));
    assert!(text(&frame[4]).starts_with("Year Progress: [Y:2025][18%]["));
    assert!(day.ends_with("░]"));
}

#[test]
fn main_view_remaining_framing() {
    let mut frame = Vec::new();
    render_main_view(&mut frame, &at(18, 0), true);
    assert!(text(&frame[2]).starts_with("Day Missing: [Fri][25%]["));
    assert!(text(&frame[3]).starts_with("Week Left: [W:10]["));
    assert!(text(&frame[4]).starts_with("Year Left: [Y:2025]["));
}

#[test]
fn weekday_names() {
    assert_eq!(weekday_name(0), "Sun");
    assert_eq!(weekday_name(3), "Wed");
    assert_eq!(weekday_name(6), "Sat");
}

#[test]
fn empty_timer_list_is_fatal() {
    assert!(matches!(load_timer_config(vec![]), Err(ConfigError::NoTimers)));
}

#[test]
fn bad_timer_time_is_fatal() {
    let result = load_timer_config(vec![timer("A", "10:00"), timer("B", "ten")]);
    assert!(matches!(result, Err(ConfigError::BadTimerTime { index: 1 })));
}

#[test]
fn timers_split_by_time_of_day() {
    let config = load_timer_config(vec![timer("A", "10:00"), timer("B", "08:00"), timer("C", "11:00")]).unwrap();
    let (active, completed) = partition_timers(&at(9, 0), &config);
    let names: Vec<&str> = active.iter().map(|t| t.name.as_str()).collect();
    assert_eq!(names, vec!["A", "C"]);
    assert_eq!(completed.len(), 1);
    assert_eq!(completed[0].name, "B");
}

#[test]
fn time_limit_view_lines() {
    let config = load_timer_config(vec![timer("Standup", "10:00"), timer("Coffee", "08:00")]).unwrap();
    let mut frame = Vec::new();
    render_time_limit_view(&mut frame, &at(9, 0), &config);
    let lines: Vec<String> = frame.iter().map(text).collect();
    assert_eq!(lines[0], "Time Limits");
    assert_eq!(lines[1], "═".repeat(50));
    assert_eq!(lines[2], "Active Timers:");
    assert!(lines[3].starts_with("Standup: 10:00 - 90% ["));
    assert_eq!(lines[4], "Message: Standup done");
    assert_eq!(lines[5], "");
    assert_eq!(lines[6], "Completed Timers:");
    assert_eq!(lines[7], "Coffee: 08:00 - Coffee done");
    assert_eq!(frame[7].spans[0].style, Style { color: Color::Normal, bold: false, dimmed: true });
    assert_eq!(lines.len(), 8);
}

#[test]
fn time_blocks_view_overflow_is_red() {
    let config = load_timer_config(vec![timer("A", "10:00")]).unwrap();
    let state = AppState { current_view: View::TimeBlocks, show_remaining: false };
    let frame = compose_frame(&state, &at(18, 0), &blocks(), &config);
    assert_eq!(frame.len(), 3);
    assert_eq!(text(&frame[0]), "Time Blocks");
    let line = text(&frame[2]);
    assert!(line.starts_with("Work: [113%][-1h 0m left]["), "{}", line);
    assert_eq!(frame[2].spans[1].style.color, Color::Red);
    assert_eq!(frame[2].spans[1].text, "█".repeat(50));
}

#[test]
fn same_frame_twice_draws_once() {
    let config = load_timer_config(vec![timer("A", "10:00")]).unwrap();
    let state = AppState::new();
    let mut last = Vec::new();
    assert!(render_view(&state, &at(9, 0), &blocks(), &config, &mut last));
    assert_eq!(last.len(), 5 + 2 + 1);
    assert!(!render_view(&state, &at(9, 0), &blocks(), &config, &mut last));
    assert!(render_view(&state, &at(9, 1), &blocks(), &config, &mut last));
    assert_eq!(text(&last[0]), "TIME: 09:01");
}

#[test]
fn present_replaces_baseline_only_on_change() {
    let config = load_timer_config(vec![timer("A", "10:00")]).unwrap();
    let state = AppState { current_view: View::TimeLimit, show_remaining: false };
    let frame = compose_frame(&state, &at(9, 0), &blocks(), &config);
    let again = compose_frame(&state, &at(9, 0), &blocks(), &config);
    let mut last = Vec::new();
    assert!(present(frame, &mut last));
    assert!(!present(again, &mut last));
    assert_eq!(text(&last[0]), "Time Limits");
}
