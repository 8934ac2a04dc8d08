use progress_clock::clock::{parse_clock, ClockTime, Instant};
use progress_clock::progress::{day_progress, week_progress, year_progress, Progress};

fn now(weekday: u32, day_of_year: u32, hour: u32, minute: u32) -> Instant {
    Instant { year: 2025, month: 3, day: 4, weekday, iso_week: 10, day_of_year, hour, minute }
}

#[test]
fn day_progress_landmarks() {
    let start = day_progress(&now(2, 62, 0, 0));
    assert_eq!(start.elapsed, 0);
    assert_eq!(start.rounded_percent(), 0);
    let noon = day_progress(&now(2, 62, 12, 0));
    assert_eq!(noon.rounded_percent(), 50);
    assert_eq!(2 * noon.elapsed, noon.total);
    let last = day_progress(&now(2, 62, 23, 59));
    assert_eq!(last.rounded_percent(), 100);
    assert!(!last.is_overflowing());
}

#[test]
fn week_and_year_progress_values() {
    let w = week_progress(&now(3, 0, 12, 0));
    assert_eq!((w.elapsed, w.total), (3 * 1440 + 720, 10080));
    assert_eq!(w.rounded_percent(), 50);
    let y = year_progress(&now(0, 0, 0, 0));
    assert_eq!((y.elapsed, y.total), (0, 525600));
    // Day 366 of a leap year runs past the 365-day year.
    let late = year_progress(&now(0, 365, 12, 0));
    assert!(late.is_overflowing());
    assert_eq!(late.rounded_percent(), 100);
}

#[test]
fn rounding_goes_half_away_from_zero() {
    assert_eq!(Progress { elapsed: 1, total: 8 }.rounded_percent(), 13);
    assert_eq!(Progress { elapsed: -1, total: 8 }.rounded_percent(), -13);
    assert_eq!(Progress { elapsed: -1, total: 8 }.truncated_percent(), -12);
    assert_eq!(Progress { elapsed: 2, total: 3 }.truncated_percent(), 66);
    assert_eq!(Progress { elapsed: 30, total: 40 }.remaining(), 10);
    assert_eq!(Progress { elapsed: 30, total: 40 }.complement(), Progress { elapsed: 10, total: 40 });
}

#[test]
fn clock_text_is_read_by_chrono() {
    assert_eq!(parse_clock("14:05"), Some(ClockTime { hour: 14, minute: 5 }));
    assert_eq!(parse_clock("00:00"), Some(ClockTime { hour: 0, minute: 0 }));
    assert_eq!(parse_clock("25:00"), None);
    assert_eq!(parse_clock("noon"), None);
    assert_eq!(parse_clock(""), None);
}
