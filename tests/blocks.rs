use progress_clock::blocks::{calculate_time_block_progress, load_time_blocks, TimeBlock, TimeBlockConfig, TimeBlockEntry};
use progress_clock::clock::{ClockTime, Instant};
use progress_clock::config::ConfigError;

fn at(hour: u32, minute: u32) -> Instant {
    Instant { year: 2025, month: 6, day: 2, weekday: 1, iso_week: 23, day_of_year: 152, hour, minute }
}

fn block(start: (u32, u32), end: (u32, u32)) -> TimeBlock {
    TimeBlock {
        name: "Focus".to_string(),
        start_time: ClockTime { hour: start.0, minute: start.1 },
        end_time: ClockTime { hour: end.0, minute: end.1 },
    }
}

fn entry(name: &str, start: &str, end: &str) -> TimeBlockEntry {
    TimeBlockEntry { name: name.to_string(), start_time: start.to_string(), end_time: end.to_string() }
}

#[test]
fn block_progress_midway() {
    let (p, left) = calculate_time_block_progress(&at(10, 30), &block((9, 0), (12, 0)));
    assert_eq!((p.elapsed, p.total), (90, 180));
    assert_eq!(p.rounded_percent(), 50);
    assert_eq!(left, "1h 30m left");
}

#[test]
fn block_overrun_is_not_clamped() {
    let (p, left) = calculate_time_block_progress(&at(12, 5), &block((9, 0), (12, 0)));
    assert_eq!((p.elapsed, p.total), (185, 180));
    assert!(p.is_overflowing());
    assert_eq!(p.rounded_percent(), 103);
    assert_eq!(left, "-1h 55m left");
}

#[test]
fn block_not_started_is_negative() {
    let (p, left) = calculate_time_block_progress(&at(8, 0), &block((9, 0), (10, 0)));
    assert_eq!((p.elapsed, p.total), (-60, 60));
    assert_eq!(p.rounded_percent(), -100);
    assert_eq!(left, "2h 0m left");
}

#[test]
fn blocks_load_in_file_order() {
    let config = TimeBlockConfig {
        time_blocks: vec![entry("Morning", "08:00", "12:00"), entry("Afternoon", "13:00", "17:30")],
    };
    let blocks = load_time_blocks(&config).unwrap();
    assert_eq!(blocks.len(), 2);
    assert_eq!(blocks[0].name, "Morning");
    assert_eq!(blocks[0].start_time, ClockTime { hour: 8, minute: 0 });
    assert_eq!(blocks[1].name, "Afternoon");
    assert_eq!(blocks[1].end_time, ClockTime { hour: 17, minute: 30 });
}

#[test]
fn blocks_with_bad_time_are_refused() {
    let config = TimeBlockConfig {
        time_blocks: vec![entry("Morning", "08:00", "12:00"), entry("Broken", "1pm", "17:30")],
    };
    assert!(matches!(load_time_blocks(&config), Err(ConfigError::BadBlockTime { index: 1 })));
}

#[test]
fn blocks_that_end_before_they_start_are_refused() {
    let config = TimeBlockConfig { time_blocks: vec![entry("Backwards", "12:00", "12:00")] };
    assert!(matches!(load_time_blocks(&config), Err(ConfigError::EmptyBlock { index: 0 })));
}

#[test]
fn no_blocks_is_fine() {
    let config = TimeBlockConfig { time_blocks: vec![] };
    assert_eq!(load_time_blocks(&config).unwrap().len(), 0);
}
