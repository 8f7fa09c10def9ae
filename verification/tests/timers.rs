use paint_tanks::timer::{Timer, TimerMode};

#[test]
fn one_shot_timer_stops_at_its_duration() {
    let mut timer = Timer::new(2_000_000_000, TimerMode::Once);
    timer.tick(1_500_000_000);
    assert_eq!(timer.elapsed, 1_500_000_000);
    assert!(!timer.is_finished());
    assert!(!timer.just_finished());

    timer.tick(600_000_000);
    assert_eq!(timer.elapsed, 2_000_000_000);
    assert!(timer.is_finished());
    assert!(timer.just_finished());
    assert_eq!(timer.times_finished_this_tick, 1);
}

#[test]
fn one_shot_timer_finishes_only_once() {
    let mut timer = Timer::new(1_000, TimerMode::Once);
    timer.tick(1_000);
    assert!(timer.is_finished());
    assert!(timer.just_finished());

    timer.tick(5_000);
    assert!(timer.is_finished());
    assert!(!timer.just_finished());
    assert_eq!(timer.elapsed, 1_000);
    assert_eq!(timer.times_finished_this_tick, 0);
}

#[test]
fn one_shot_timer_with_time_left_only_adds() {
    let mut timer = Timer::new(1_000, TimerMode::Once);
    timer.tick(999);
    assert_eq!(
        timer,
        Timer {
            elapsed: 999,
            duration: 1_000,
            mode: TimerMode::Once,
            finished: false,
            times_finished_this_tick: 0,
        }
    );
}

#[test]
fn repeating_timer_keeps_the_remainder() {
    let mut timer = Timer::new(10_000_000, TimerMode::Repeating);
    timer.tick(25_000_000);
    assert_eq!(timer.elapsed, 5_000_000);
    assert!(timer.is_finished());
    assert!(timer.just_finished());
    assert_eq!(timer.times_finished_this_tick, 2);

    timer.tick(4_999_999);
    assert_eq!(timer.elapsed, 9_999_999);
    assert!(!timer.is_finished());
    assert!(!timer.just_finished());
    assert_eq!(timer.times_finished_this_tick, 0);

    timer.tick(1);
    assert_eq!(timer.elapsed, 0);
    assert!(timer.just_finished());
    assert_eq!(timer.times_finished_this_tick, 1);
}

#[test]
fn repeating_timer_counts_completions_in_32_bits() {
    let mut timer = Timer::new(1, TimerMode::Repeating);
    timer.tick(0x1_0000_0000);
    assert_eq!(timer.elapsed, 0);
    assert!(timer.is_finished());
    assert_eq!(timer.times_finished_this_tick, 0);
    assert!(!timer.just_finished());

    timer.tick(0x1_0000_0003);
    assert_eq!(timer.times_finished_this_tick, 3);
    assert!(timer.just_finished());
}

#[test]
fn timers_take_the_longest_tick() {
    let mut once = Timer::new(u64::MAX, TimerMode::Once);
    once.tick(u64::MAX - 1);
    assert!(!once.is_finished());
    once.tick(u64::MAX);
    assert!(once.is_finished());
    assert_eq!(once.elapsed, u64::MAX);

    let mut repeating = Timer::new(u64::MAX, TimerMode::Repeating);
    repeating.tick(u64::MAX - 1);
    repeating.tick(u64::MAX);
    assert_eq!(repeating.elapsed, u64::MAX - 1);
    assert_eq!(repeating.times_finished_this_tick, 1);
}

#[test]
fn timer_knows_when_it_is_well_formed() {
    assert!(Timer::new(5, TimerMode::Once).is_wf());
    let stale = Timer {
        elapsed: 5,
        duration: 5,
        mode: TimerMode::Once,
        finished: false,
        times_finished_this_tick: 0,
    };
    assert!(!stale.is_wf());
    let overrun = Timer {
        elapsed: 5,
        duration: 5,
        mode: TimerMode::Repeating,
        finished: false,
        times_finished_this_tick: 0,
    };
    assert!(!overrun.is_wf());
    let empty = Timer {
        elapsed: 0,
        duration: 0,
        mode: TimerMode::Repeating,
        finished: false,
        times_finished_this_tick: 0,
    };
    assert!(!empty.is_wf());
}
