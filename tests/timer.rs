use progress_clock::clock::Instant;
use progress_clock::timer::Timer;

fn at(hour: u32, minute: u32) -> Instant {
    // 2024-01-01 was a Monday, in ISO week 1.
    Instant { year: 2024, month: 1, day: 1, weekday: 1, iso_week: 1, day_of_year: 0, hour, minute }
}

fn percentage(p: progress_clock::progress::Progress) -> f32 {
    (p.elapsed as f32 / p.total as f32) * 100.0
}

#[test]
fn test_timer_is_active() {
    let timer = Timer {
        name: "Test Timer".to_string(),
        time: "14:00".to_string(),
        message: "Test Message".to_string(),
        repeat: "daily".to_string(),
    };

    // Test before timer time
    let before_time = at(13, 0);
    assert!(timer.is_active(&before_time));

    // Test after timer time
    let after_time = at(15, 0);
    assert!(!timer.is_active(&after_time));
}

#[test]
fn test_timer_progress() {
    let timer = Timer {
        name: "Test Timer".to_string(),
        time: "14:00".to_string(),
        message: "Test Message".to_string(),
        repeat: "daily".to_string(),
    };

    // Test at start of day
    let start_of_day = at(0, 0);
    assert_eq!(percentage(timer.progress(&start_of_day)), 0.0);

    // Test at half way
    let half_way = at(7, 0);
    assert!(percentage(timer.progress(&half_way)) > 45.0 && percentage(timer.progress(&half_way)) < 55.0);

    // Test after completion
    let after_completion = at(15, 0);
    assert_eq!(percentage(timer.progress(&after_completion)), 100.0);
}

#[test]
fn timer_at_exact_target_is_completed() {
    let timer = Timer {
        name: "Lunch".to_string(),
        time: "12:30".to_string(),
        message: "Eat".to_string(),
        repeat: "daily".to_string(),
    };
    assert!(!timer.is_active(&at(12, 30)));
    assert!(timer.is_active(&at(12, 29)));
    let p = timer.progress(&at(12, 30));
    assert_eq!(p.elapsed, p.total);
    assert_eq!(percentage(p), 100.0);
    let q = timer.progress(&at(6, 15));
    assert_eq!((q.elapsed, q.total), (375, 750));
    assert_eq!(q.truncated_percent(), 50);
}
