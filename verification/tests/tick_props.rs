use snake_core::tick::{TickTimer, TICK_INTERVAL_MS};

#[test]
fn fresh_timer_starts_empty() {
    let t = TickTimer::new(TICK_INTERVAL_MS);
    assert_eq!(t.interval_ms, 50);
    assert_eq!(t.acc_ms, 0);
}

#[test]
fn timer_accumulates_across_polls() {
    let mut t = TickTimer::new(50);
    assert!(!t.tick(30));
    assert_eq!(t.acc_ms, 30);
    assert!(t.tick(30));
    assert_eq!(t.acc_ms, 10);
    assert!(!t.tick(39));
    assert!(t.tick(1));
    assert_eq!(t.acc_ms, 0);
}

#[test]
fn timer_fires_exactly_on_the_boundary() {
    let mut t = TickTimer::new(50);
    assert!(t.tick(50));
    assert_eq!(t.acc_ms, 0);
}

#[test]
fn one_poll_fires_at_most_once_and_keeps_the_surplus() {
    let mut t = TickTimer::new(50);
    assert!(t.tick(500));
    assert_eq!(t.acc_ms, 450);
    // The surplus is not dropped: later polls drain it one interval at
    // a time.
    assert!(t.tick(0));
    assert_eq!(t.acc_ms, 400);
}
