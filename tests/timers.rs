use esp_hal::{Error, OneShotTimer, PeriodicTimer, SimTimer, Timer, WouldBlock};

#[test]
fn delay_micros_counts_at_least_requested() {
    let mut timer = OneShotTimer::new(SimTimer::new());
    timer.delay_micros(5);
    let inner = timer.into_inner();
    assert!(inner.now() >= 5);
    assert!(!inner.is_running());
    assert!(!inner.auto_reload());
    assert_eq!(inner.load(), 5);
    assert_eq!(inner.raised(), 1);
}

#[test]
fn delay_micros_never_returns_early() {
    for us in [0u32, 1, 2, 7, 100] {
        let mut timer = OneShotTimer::new(SimTimer::new());
        timer.delay_micros(us);
        assert!(timer.inner().now() >= us as u64);
    }
}

#[test]
fn delay_millis_waits_thousand_micros_each() {
    let mut timer = OneShotTimer::new(SimTimer::new());
    timer.delay_millis(2);
    assert_eq!(timer.inner().load(), 2000);
    assert_eq!(timer.inner().now(), 2000);
}

#[test]
fn delay_nanos_rounds_up_to_micros() {
    let mut timer = OneShotTimer::new(SimTimer::new());
    timer.delay_nanos(2500);
    assert_eq!(timer.inner().load(), 3);
    assert!(timer.inner().now() >= 3);
}

#[test]
fn delay_nanos_whole_micros_unchanged() {
    let mut timer = OneShotTimer::new(SimTimer::new());
    timer.delay_nanos(2000);
    assert_eq!(timer.inner().load(), 2);
    let mut timer = OneShotTimer::new(SimTimer::new());
    timer.delay_nanos(0);
    assert_eq!(timer.inner().load(), 0);
    let mut timer = OneShotTimer::new(SimTimer::new());
    timer.delay_nanos(1);
    assert_eq!(timer.inner().load(), 1);
}

#[test]
fn delay_nanos_largest_input() {
    let mut timer = OneShotTimer::new(SimTimer::new());
    timer.delay_nanos(u32::MAX);
    assert_eq!(timer.inner().load(), 4_294_968);
}

#[test]
fn delay_on_timer_already_past_deadline_still_waits() {
    let mut raw = SimTimer::new();
    raw.start();
    raw.advance(10_000);
    let mut timer = OneShotTimer::new(raw);
    timer.delay_micros(5);
    assert_eq!(timer.inner().now(), 5);
}

#[test]
fn delay_nanos_500_waits_like_delay_micros_1() {
    let mut by_nanos = OneShotTimer::new(SimTimer::new());
    by_nanos.delay_nanos(500);
    let mut by_micros = OneShotTimer::new(SimTimer::new());
    by_micros.delay_micros(1);
    assert_eq!(by_nanos.inner().load(), 1);
    assert_eq!(by_nanos.inner().load(), by_micros.inner().load());
    assert_eq!(by_nanos.inner().now(), by_micros.inner().now());
}

#[test]
fn delay_stops_a_running_timer_first() {
    let mut raw = SimTimer::new();
    raw.load_value(1000);
    raw.enable_auto_reload(true);
    raw.start();
    raw.advance(400);
    let mut timer = OneShotTimer::new(raw);
    timer.delay_micros(3);
    let inner = timer.into_inner();
    assert_eq!(inner.now(), 3);
    assert!(!inner.is_running());
    assert!(!inner.auto_reload());
}

#[test]
fn delay_leaves_interrupt_cleared() {
    let mut timer = OneShotTimer::new(SimTimer::new());
    timer.delay_micros(4);
    let mut inner = timer.into_inner();
    assert!(!inner.is_interrupt_set());
}

#[test]
fn periodic_wait_would_block_until_timeout() {
    let mut timer = PeriodicTimer::new(SimTimer::new());
    timer.start(3);
    assert_eq!(timer.wait(), Err(WouldBlock));
    assert_eq!(timer.wait(), Err(WouldBlock));
    assert_eq!(timer.wait(), Ok(()));
    assert!(timer.inner().now() >= 3);
    assert!(timer.inner().alarm_active());
}

#[test]
fn periodic_fires_once_per_period() {
    let mut timer = PeriodicTimer::new(SimTimer::new());
    timer.start(4);
    let mut ready_at = Vec::new();
    for _ in 0..20 {
        if timer.wait().is_ok() {
            ready_at.push(timer.inner().now());
        }
    }
    assert_eq!(ready_at, vec![4, 8, 12, 16, 20]);
}

#[test]
fn periodic_missed_periods_merge_into_one_event() {
    let mut raw = SimTimer::new();
    raw.enable_interrupt(true);
    let mut timer = PeriodicTimer::new(raw);
    timer.start(10);
    let mut raw = timer.into_inner();
    raw.advance(25);
    let mut timer = PeriodicTimer::new(raw);
    assert_eq!(timer.wait(), Ok(()));
    assert_eq!(timer.wait(), Err(WouldBlock));
}

#[test]
fn cancel_running_then_again_is_inactive() {
    let mut timer = PeriodicTimer::new(SimTimer::new());
    timer.start(5);
    assert_eq!(timer.cancel(), Ok(()));
    assert!(!timer.inner().is_running());
    assert_eq!(timer.cancel(), Err(Error::TimerInactive));
}

#[test]
fn cancel_never_started_is_inactive() {
    let mut timer = PeriodicTimer::new(SimTimer::new());
    assert_eq!(timer.cancel(), Err(Error::TimerInactive));
}

#[test]
fn cancelled_timer_never_fires() {
    let mut timer = PeriodicTimer::new(SimTimer::new());
    timer.start(2);
    assert_eq!(timer.cancel(), Ok(()));
    for _ in 0..5 {
        assert_eq!(timer.wait(), Err(WouldBlock));
    }
}

#[test]
fn restart_resets_count_and_period() {
    let mut timer = PeriodicTimer::new(SimTimer::new());
    timer.start(5);
    for _ in 0..3 {
        assert_eq!(timer.wait(), Err(WouldBlock));
    }
    timer.start(5);
    assert_eq!(timer.inner().now(), 0);
    for _ in 0..4 {
        assert_eq!(timer.wait(), Err(WouldBlock));
    }
    assert_eq!(timer.wait(), Ok(()));
    assert_eq!(timer.inner().now(), 5);
}

#[test]
fn restart_with_pending_alarm_drops_it() {
    let mut timer = PeriodicTimer::new(SimTimer::new());
    timer.start(1);
    let mut raw = timer.into_inner();
    raw.advance(1);
    assert!(raw.is_interrupt_set());
    let mut timer = PeriodicTimer::new(raw);
    timer.start(3);
    assert_eq!(timer.wait(), Err(WouldBlock));
}

#[test]
fn error_variants_are_distinct() {
    assert_ne!(Error::TimerActive, Error::TimerInactive);
    assert_ne!(Error::TimerInactive, Error::AlarmInactive);
    assert_ne!(Error::TimerActive, Error::AlarmInactive);
}

#[test]
fn wait_reports_pending_flag_even_when_stopped() {
    let mut timer = PeriodicTimer::new(SimTimer::new());
    timer.start(1);
    let mut raw = timer.into_inner();
    raw.advance(1);
    raw.stop();
    let mut timer = PeriodicTimer::new(raw);
    assert_eq!(timer.wait(), Ok(()));
    assert_eq!(timer.wait(), Err(WouldBlock));
}
