use texty::{Focus, CURSOR_BLINK_INTERVAL_MILLIS};

fn focused_at(updated_at: u64, now: u64) -> Focus {
    Focus { updated_at, now, is_window_focused: true }
}

#[test]
fn fresh_focus_starts_blink_cycle() {
    let f = Focus::now(1234);
    assert_eq!(f, Focus { updated_at: 1234, now: 1234, is_window_focused: true });
    assert!(f.is_cursor_visible());
}

#[test]
fn cursor_visible_in_first_half_cycle() {
    assert!(focused_at(1000, 1000).is_cursor_visible());
    assert!(focused_at(1000, 1499).is_cursor_visible());
}

#[test]
fn cursor_hidden_in_second_half_cycle() {
    assert!(!focused_at(1000, 1500).is_cursor_visible());
    assert!(!focused_at(1000, 1999).is_cursor_visible());
}

#[test]
fn blink_phase_by_elapsed_time() {
    for (elapsed, visible) in [(0u64, true), (500, false), (999, false), (1000, true), (1499, true)] {
        assert_eq!(focused_at(0, elapsed).is_cursor_visible(), visible, "at {elapsed} ms");
    }
}

#[test]
fn cursor_hidden_in_unfocused_window() {
    for elapsed in [0u64, 1, 499, 500, 999, 1000, 1499, 123_456] {
        let f = Focus { updated_at: 10, now: 10 + elapsed, is_window_focused: false };
        assert!(!f.is_cursor_visible());
    }
}

#[test]
fn clock_going_back_counts_as_no_time() {
    assert!(focused_at(5000, 4000).is_cursor_visible());
    assert_eq!(focused_at(5000, 4000).millis_until_blink(), 500);
}

#[test]
fn redraw_waits_until_next_boundary() {
    assert_eq!(CURSOR_BLINK_INTERVAL_MILLIS, 500);
    assert_eq!(focused_at(1000, 1000).millis_until_blink(), 500);
    assert_eq!(focused_at(1000, 1200).millis_until_blink(), 300);
    assert_eq!(focused_at(1000, 1499).millis_until_blink(), 1);
    assert_eq!(focused_at(1000, 1500).millis_until_blink(), 500);
}
