use tui_scheduler::mux::poll_timeout_ms;
use tui_scheduler::mux::tick_due;
use tui_scheduler::mux::TICK_MS;

#[test]
fn timeout_is_the_time_left_until_the_tick() {
    assert_eq!(poll_timeout_ms(0, TICK_MS), 200);
    assert_eq!(poll_timeout_ms(50, TICK_MS), 150);
    assert_eq!(poll_timeout_ms(199, TICK_MS), 1);
}

#[test]
fn timeout_is_floored_at_zero() {
    assert_eq!(poll_timeout_ms(200, TICK_MS), 0);
    assert_eq!(poll_timeout_ms(1000, TICK_MS), 0);
}

#[test]
fn tick_fires_once_the_interval_elapsed() {
    assert!(!tick_due(0, TICK_MS));
    assert!(!tick_due(199, TICK_MS));
    assert!(tick_due(200, TICK_MS));
    assert!(tick_due(500, TICK_MS));
}
