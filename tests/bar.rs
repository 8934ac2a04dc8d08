use progress_clock::bar::ProgressBar;
use progress_clock::progress::Progress;

fn bar(elapsed: i64, total: i64) -> ProgressBar {
    ProgressBar::new(&Progress { elapsed, total })
}

#[test]
fn bar_cells_follow_rounded_half_percentage() {
    assert_eq!(bar(0, 100).length, 0);
    // 1% is half a cell, which rounds up to one.
    assert_eq!(bar(1, 100).length, 1);
    assert_eq!(bar(3, 100).length, 2);
    assert_eq!(bar(50, 100).length, 25);
    assert_eq!(bar(99, 100).length, 50);
    assert_eq!(bar(100, 100).length, 50);
    assert_eq!(bar(1, 3).length, 17);
}

#[test]
fn bar_overflow_is_capped_and_marked() {
    let b = bar(150, 100);
    assert!(b.overflow);
    assert_eq!(b.length, 50);
    let full = bar(100, 100);
    assert!(!full.overflow);
}

#[test]
fn bar_before_start_is_empty() {
    let b = bar(-20, 100);
    assert_eq!(b.length, 0);
    assert!(!b.overflow);
}

#[test]
fn bar_render_has_fifty_cells() {
    let b = bar(30, 100);
    let text = b.render();
    assert_eq!(text.chars().count(), 50);
    assert_eq!(text.chars().filter(|c| *c == '█').count(), 15);
    assert_eq!(text.chars().filter(|c| *c == '░').count(), 35);
    assert_eq!(b.get_repeat_path_for_length(), "█".repeat(15));
    assert_eq!(b.get_repeat_path_for_end(), "░".repeat(35));
    assert_eq!(text, format!("{}{}", "█".repeat(15), "░".repeat(35)));
}
