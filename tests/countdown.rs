use bili_ticker_buy::countdown::{parse_start_time, BadStartTime, Countdown, WaitStep};

#[test]
fn start_time_in_past_fires_immediately() {
    let c = Countdown::new(1_000, 0, 5_000);
    assert!(c.decide(5_000, false) == WaitStep::Fire);
}

#[test]
fn fires_exactly_at_target() {
    let c = Countdown::new(10_000, 0, 9_000);
    assert!(c.decide(9_999, false) == WaitStep::Sleep(100));
    assert!(c.decide(10_000, false) == WaitStep::Fire);
}

#[test]
fn coarse_then_fine_sleep() {
    let c = Countdown::new(100_000, 0, 90_000);
    assert!(c.decide(90_000, false) == WaitStep::Sleep(1_000));
    assert!(c.decide(94_999, false) == WaitStep::Sleep(1_000));
    assert!(c.decide(95_000, false) == WaitStep::Sleep(100));
}

#[test]
fn resync_every_ten_seconds_until_final_approach() {
    let c = Countdown::new(100_000, 0, 0);
    assert!(c.decide(10_000, false) == WaitStep::Sleep(1_000));
    assert!(c.decide(10_001, false) == WaitStep::Resync);
    let late = Countdown::new(100_000, 0, 0);
    assert!(late.decide(98_000, false) == WaitStep::Sleep(100));
}

#[test]
fn cancellation_stops_wait() {
    let c = Countdown::new(100_000, 0, 0);
    assert!(c.decide(50, true) == WaitStep::Cancelled);
    let past = Countdown::new(0, 0, 0);
    assert!(past.decide(50, true) == WaitStep::Cancelled);
}

#[test]
fn new_offset_moves_target_at_once() {
    let mut c = Countdown::new(100_000, 0, 0);
    c.apply_sync(Some(50_500), 50_000);
    assert_eq!(c.offset_ms, 500);
    assert_eq!(c.last_sync_ms, 50_000);
    assert!(c.decide(99_499, false) == WaitStep::Sleep(100));
    assert!(c.decide(99_500, false) == WaitStep::Fire);
    c.apply_sync(Some(60_000), 60_700);
    assert_eq!(c.offset_ms, -700);
    assert!(c.decide(100_699, false) == WaitStep::Sleep(100));
}

#[test]
fn failed_sync_keeps_offset() {
    let mut c = Countdown::new(100_000, 250, 0);
    c.apply_sync(None, 20_000);
    assert_eq!(c.offset_ms, 250);
    assert_eq!(c.last_sync_ms, 20_000);
    c.apply_sync(Some(i64::MIN), 1);
    assert_eq!(c.offset_ms, 250);
}

#[test]
fn start_time_formats() {
    let spaced = parse_start_time("2030-01-02 03:04:05");
    let iso = parse_start_time("2030-01-02T03:04:05");
    assert!(matches!(spaced, Ok(Some(_))));
    assert!(spaced == iso);
    let first = match spaced {
        Ok(Some(t)) => t,
        _ => panic!("expected a time"),
    };
    match parse_start_time("2030-01-02 03:04:06") {
        Ok(Some(next)) => assert_eq!(next - first, 1_000),
        _ => panic!("expected a time"),
    }
    assert!(parse_start_time("tomorrow") == Err(BadStartTime));
    assert!(parse_start_time("") == Err(BadStartTime));
    assert!(parse_start_time("2030-13-02 03:04:05") == Err(BadStartTime));
}
