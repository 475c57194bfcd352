use esp_hal::{
    compose_ticks, latched_read, CaptureCounter, DirectUptime, SimCounter, SysUptime,
    TickInstant, WideCounter, APB_FREQUENCY, TICKS_PER_SECOND,
};

#[test]
fn compose_ticks_joins_halves() {
    assert_eq!(compose_ticks(1, 2), (1u64 << 32) | 2);
    assert_eq!(compose_ticks(0, 0), 0);
    assert_eq!(compose_ticks(u32::MAX, u32::MAX), u64::MAX);
    assert_eq!(compose_ticks(0x1234_5678, 0x9abc_def0), 0x1234_5678_9abc_def0);
}

#[test]
fn latched_read_waits_for_capture() {
    let mut counter = SimCounter::new(1000, 5, 2, false);
    let read = latched_read(&mut counter);
    assert_eq!(read.ticks, 1000);
    assert!(read.settled);
    assert_eq!(read.polls, 2);
}

#[test]
fn latched_read_captures_high_half() {
    let mut counter = SimCounter::new(0x7_0000_0010, 5, 1, false);
    let read = latched_read(&mut counter);
    assert_eq!(read.ticks, 0x7_0000_0010);
    assert!(read.settled);
}

#[test]
fn latched_read_immediate_capture_spends_budget() {
    let mut counter = SimCounter::new(0x7_0000_0010, 3, 0, false);
    let read = latched_read(&mut counter);
    assert_eq!(read.ticks, 0x7_0000_0010);
    assert!(!read.settled);
    assert_eq!(read.polls, 4);
}

#[test]
fn latched_read_stuck_capture_terminates() {
    let mut counter = SimCounter::new(1000, 5, 0, true);
    let read = latched_read(&mut counter);
    assert_eq!(read.polls, 6);
    assert!(!read.settled);
    assert_eq!(read.ticks, 0);
}

#[test]
fn latched_read_zero_divider_polls_once() {
    let mut counter = SimCounter::new(1000, 0, 0, true);
    let read = latched_read(&mut counter);
    assert_eq!(read.polls, 1);
    assert!(!read.settled);
}

#[test]
fn latched_read_slow_capture_gives_up_at_budget() {
    let mut counter = SimCounter::new(1000, 1, 10, false);
    let read = latched_read(&mut counter);
    assert_eq!(read.polls, 2);
    assert!(!read.settled);
}

#[test]
fn time_init_sets_divider() {
    let uptime = SysUptime::time_init(SimCounter::new(0, 0, 0, false));
    assert_eq!(uptime.counter_ref().divider(), 5);
    assert!(uptime.counter_ref().is_counting());
    assert_eq!(APB_FREQUENCY / TICKS_PER_SECOND, 5);
}

#[test]
fn uptime_reads_are_monotonic() {
    let mut uptime = SysUptime::time_init(SimCounter::new(500, 0, 0, false));
    let t1 = uptime.try_now_raw().unwrap();
    let t2 = uptime.try_now_raw().unwrap();
    assert!(t2 >= t1);
    assert_eq!(t1, 500);
}

#[test]
fn uptime_advances_with_counter() {
    let counter = SimCounter::new(100, 0, 0, false);
    let mut uptime = SysUptime::time_init(counter);
    let t1 = uptime.try_now().unwrap();
    let mut counter = SimCounter::new(100, 0, 0, false);
    counter.advance(900);
    let mut later = SysUptime::time_init(counter);
    let t2 = later.try_now().unwrap();
    assert_eq!(t1.ticks(), 100);
    assert_eq!(t2.ticks(), 1000);
    assert_eq!(t2.ticks() - t1.ticks(), 900);
}

#[test]
fn current_time_matches_try_now() {
    let mut uptime = SysUptime::time_init(SimCounter::new(42, 0, 0, false));
    let t = uptime.current_time();
    assert_eq!(t, TickInstant::from_ticks(42));
}

#[test]
fn try_now_raw_never_fails() {
    let mut uptime = SysUptime::time_init(SimCounter::new(7, 3, 0, true));
    assert!(uptime.try_now_raw().is_ok());
    assert!(uptime.try_now().is_ok());
}

#[test]
fn time_init_twice_gives_same_configuration() {
    let once = SysUptime::time_init(SimCounter::new(0, 9, 0, false));
    let twice = SysUptime::time_init(once.release());
    assert_eq!(twice.counter_ref().divider(), 5);
    assert!(twice.counter_ref().is_counting());
}

#[test]
fn latched_read_after_change_is_at_least_request_value() {
    let mut counter = SimCounter::new(5000, 8, 3, false);
    let read = latched_read(&mut counter);
    assert!(read.settled);
    assert!(read.ticks >= 5000);
    assert_eq!(read.polls, 3);
}

#[test]
fn direct_reads_are_monotonic() {
    let mut uptime = DirectUptime::new(SimCounter::new(10, 0, 0, false));
    let t1 = uptime.try_now_raw().unwrap();
    let t2 = uptime.try_now_raw().unwrap();
    assert!(t2 >= t1);
    assert_eq!(t1, 11);
    assert_eq!(uptime.try_now().unwrap().ticks(), 13);
}

#[test]
fn wide_counter_saturates() {
    let mut counter = SimCounter::new(u64::MAX, 0, 0, false);
    assert_eq!(counter.read(), u64::MAX);
}
