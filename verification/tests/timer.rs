use countdown::timer::TimerState;
use countdown::timer::poll_timeout_ms;

#[test]
fn tick_counts_down_by_one() {
    let mut t = TimerState::new(10);
    let chime = t.advance_tick();
    assert!(!chime);
    assert_eq!(t.remaining_seconds, 9);
    assert_eq!(t.configured_seconds, 10);
    assert!(!t.chime_played);
    assert!(!t.reset_requested);
}

#[test]
fn expired_tick_chimes_once_and_stays_at_zero() {
    let mut t = TimerState::new(1);
    let chime = t.advance_tick();
    assert!(!chime);
    assert_eq!(t.remaining_seconds, 0);
    assert!(!t.chime_played);

    let chime = t.advance_tick();
    assert!(chime);
    assert_eq!(t.remaining_seconds, 0);
    assert!(t.chime_played);

    let chime = t.advance_tick();
    assert!(!chime);
    assert_eq!(t.remaining_seconds, 0);
    assert!(t.chime_played);
}

#[test]
fn auto_repeat_restarts_on_the_chime_tick() {
    let mut t = TimerState::new(3);
    t.toggle_auto_repeat();
    assert!(t.auto_repeat);
    t.advance_tick();
    t.advance_tick();
    t.advance_tick();
    assert_eq!(t.remaining_seconds, 0);
    assert!(!t.chime_played);

    // The same tick fires the chime, applies the automatic reset, and runs
    // the final decrement.
    let chime = t.advance_tick();
    assert!(chime);
    assert_eq!(t.remaining_seconds, 2);
    assert!(!t.chime_played);
    assert!(!t.reset_requested);
}

#[test]
fn requested_reset_waits_for_the_next_tick() {
    let mut t = TimerState::new(5);
    t.advance_tick();
    assert_eq!(t.remaining_seconds, 4);

    t.request_reset();
    assert_eq!(t.remaining_seconds, 4);
    assert!(t.reset_requested);

    // Asking again changes nothing.
    t.request_reset();
    assert_eq!(t.remaining_seconds, 4);
    assert!(t.reset_requested);

    // The next tick restores the configured duration and then decrements.
    let chime = t.advance_tick();
    assert!(!chime);
    assert_eq!(t.remaining_seconds, 4);
    assert!(!t.reset_requested);
    assert!(!t.chime_played);
}

#[test]
fn countdown_runs_to_zero_and_chimes_exactly_once() {
    // An end-to-end run without auto-repeat: 2 -> 1 -> 0, then the chime
    // fires once and never again.
    let mut t = TimerState::new(2);
    assert!(!t.auto_repeat);
    let mut chimes: u32 = 0;

    if t.advance_tick() {
        chimes += 1;
    }
    assert_eq!(t.remaining_seconds, 1);

    if t.advance_tick() {
        chimes += 1;
    }
    assert_eq!(t.remaining_seconds, 0);

    if t.advance_tick() {
        chimes += 1;
    }
    assert_eq!(t.remaining_seconds, 0);
    assert_eq!(chimes, 1);
    assert!(t.chime_played);

    if t.advance_tick() {
        chimes += 1;
    }
    assert_eq!(chimes, 1);
    assert!(t.chime_played);
}

#[test]
fn toggle_auto_repeat_flips_back_and_forth() {
    let mut t = TimerState::new(7);
    assert!(!t.auto_repeat);
    t.toggle_auto_repeat();
    assert!(t.auto_repeat);
    t.toggle_auto_repeat();
    assert!(!t.auto_repeat);
}

#[test]
fn quit_key_quits_and_changes_nothing() {
    let mut t = TimerState::new(4);
    assert!(t.handle_key('q'));
    assert_eq!(t.remaining_seconds, 4);
    assert!(!t.reset_requested);
    assert!(!t.auto_repeat);
}

#[test]
fn reset_key_requests_a_reset() {
    let mut t = TimerState::new(4);
    assert!(!t.handle_key('r'));
    assert!(t.reset_requested);
    assert_eq!(t.remaining_seconds, 4);
}

#[test]
fn auto_key_toggles_auto_repeat() {
    let mut t = TimerState::new(4);
    assert!(!t.handle_key('a'));
    assert!(t.auto_repeat);
    assert!(!t.handle_key('a'));
    assert!(!t.auto_repeat);
}

#[test]
fn other_keys_are_ignored() {
    let mut t = TimerState::new(4);
    assert!(!t.handle_key('x'));
    assert!(!t.handle_key(' '));
    assert_eq!(t.remaining_seconds, 4);
    assert!(!t.reset_requested);
    assert!(!t.auto_repeat);
    assert!(!t.chime_played);
}

#[test]
fn poll_timeout_is_the_time_to_the_boundary() {
    assert_eq!(poll_timeout_ms(1000, 300), 700);
    assert_eq!(poll_timeout_ms(1000, 0), 1000);
}

#[test]
fn poll_timeout_clamps_to_zero() {
    assert_eq!(poll_timeout_ms(1000, 1000), 0);
    assert_eq!(poll_timeout_ms(1000, 2500), 0);
}
