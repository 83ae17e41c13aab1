use std::time::Duration;

use uikit_event_loop::time::{Clock, Delay, Instant};
use uikit_event_loop::waker::{EventLoopWaker, FireDate, TimerSetting};

const NOW: Instant = Instant { nanos: 10_000_000_000 };

#[test]
fn a_new_timer_has_nothing_to_program() {
    let mut waker = EventLoopWaker::new();
    assert_eq!(waker.setting(), TimerSetting::Never);
    assert_eq!(waker.take_fire_date_at(NOW), None);
}

#[test]
fn stopping_moves_the_timer_out_of_reach() {
    let mut waker = EventLoopWaker::new();
    waker.stop();
    assert_eq!(waker.take_fire_date_at(NOW), Some(FireDate::Never));
    assert_eq!(waker.take_fire_date_at(NOW), None);
}

#[test]
fn starting_fires_at_once_and_can_be_repeated() {
    let mut waker = EventLoopWaker::new();
    waker.start();
    assert_eq!(waker.take_fire_date_at(NOW), Some(FireDate::Now));
    waker.start();
    assert_eq!(waker.setting(), TimerSetting::Immediately);
    assert_eq!(waker.take_fire_date_at(NOW), Some(FireDate::Now));
}

#[test]
fn a_future_instant_becomes_a_delay() {
    let mut waker = EventLoopWaker::new();
    waker.start_at(Instant { nanos: 12_500_000_001 });
    let delay = Delay { secs: 2, subsec_nanos: 500_000_001 };
    assert_eq!(waker.take_fire_date_at(NOW), Some(FireDate::After(delay)));
}

#[test]
fn delays_reach_over_the_start_of_the_clock() {
    let mut waker = EventLoopWaker::new();
    waker.start_at(Instant { nanos: 1_000_000_000 });
    let delay = Delay { secs: 3, subsec_nanos: 500_000_000 };
    let now = Instant { nanos: -2_500_000_000 };
    assert_eq!(waker.take_fire_date_at(now), Some(FireDate::After(delay)));
    waker.start_at(Instant { nanos: i128::MAX });
    let whole = Delay {
        secs: u128::MAX / 1_000_000_000,
        subsec_nanos: (u128::MAX % 1_000_000_000) as u32,
    };
    let now = Instant { nanos: i128::MIN };
    assert_eq!(waker.take_fire_date_at(now), Some(FireDate::After(whole)));
    waker.start_at(Instant { nanos: -1 });
    let delay = Delay { secs: 0, subsec_nanos: 4 };
    assert_eq!(waker.take_fire_date_at(Instant { nanos: -5 }), Some(FireDate::After(delay)));
}

#[test]
fn an_instant_that_has_come_fires_at_once() {
    let mut waker = EventLoopWaker::new();
    waker.start_at(NOW);
    assert_eq!(waker.take_fire_date_at(NOW), Some(FireDate::Now));
    waker.start_at(Instant { nanos: 9_999_999_999 });
    assert_eq!(waker.take_fire_date_at(NOW), Some(FireDate::Now));
}

#[test]
fn the_latest_setting_is_the_one_that_is_programmed() {
    let mut waker = EventLoopWaker::new();
    waker.start();
    waker.stop();
    assert_eq!(waker.take_fire_date_at(NOW), Some(FireDate::Never));
}

#[test]
fn a_clock_counts_nanoseconds_from_its_start() {
    let origin = std::time::Instant::now();
    let later = origin + Duration::new(2, 500_000_001);
    let clock = Clock::started_at(origin);
    assert_eq!(clock.instant_of(origin), Instant { nanos: 0 });
    assert_eq!(clock.instant_of(later), Instant { nanos: 2_500_000_001 });
    assert_eq!(Clock::started_at(later).instant_of(origin), Instant { nanos: -2_500_000_001 });
}

#[test]
fn a_clock_reads_the_time_since_its_start() {
    let before = std::time::Instant::now();
    let clock = Clock::started_at(before);
    let now = clock.now();
    let after = clock.instant_of(std::time::Instant::now());
    assert!(now.reached(after));
    while clock.now().nanos < 1_000_000 {}
    assert!(before.elapsed() >= Duration::from_millis(1));
}

#[test]
fn a_clock_moves_on() {
    let clock = Clock::start();
    let first = clock.now();
    let mut later = clock.now();
    while later.nanos <= first.nanos {
        later = clock.now();
    }
    assert!(first.reached(later));
    assert!(!later.reached(first));
}

#[test]
fn the_clock_is_read_to_program_the_timer() {
    let clock = Clock::start();
    let mut waker = EventLoopWaker::new();
    while clock.now().nanos == 0 {}
    // This instant has passed on the clock.
    waker.start_at(Instant { nanos: 1 });
    assert_eq!(waker.take_fire_date(&clock), Some(FireDate::Now));
    // This one is an hour ahead of the clock.
    let ahead = clock.now().nanos + 3_600_000_000_000;
    waker.start_at(Instant { nanos: ahead });
    match waker.take_fire_date(&clock) {
        Some(FireDate::After(delay)) => assert!(delay.secs <= 3600),
        other => panic!("{:?}", other),
    }
    assert_eq!(waker.take_fire_date(&clock), None);
}
