use roguelike_core::timer::{Timer, TimerMode};

fn timer(duration: u64, mode: TimerMode) -> Timer {
    Timer::new(duration, mode).expect("a positive duration")
}

#[test]
fn new_timer_has_not_fired() {
    let t = timer(1_000, TimerMode::Repeating);
    assert_eq!(t.duration(), 1_000);
    assert_eq!(t.elapsed(), 0);
    assert_eq!(t.mode(), TimerMode::Repeating);
    assert!(!t.just_fired());
    assert!(!t.finished());
}

#[test]
fn zero_duration_is_refused() {
    assert_eq!(Timer::new(0, TimerMode::Once), None);
    assert_eq!(Timer::new(0, TimerMode::Repeating), None);
    assert!(Timer::new(1, TimerMode::Once).is_some());
}

#[test]
fn fires_on_the_tick_that_reaches_the_duration() {
    for mode in [TimerMode::Once, TimerMode::Repeating] {
        let mut t = timer(1_000, mode);
        let deltas = [250, 250, 0, 500, 0, 0];
        let fired: Vec<bool> = deltas.iter().map(|d| t.tick(*d)).collect();
        assert_eq!(fired, vec![false, false, false, true, false, false]);
    }
}

#[test]
fn single_delta_of_exactly_the_duration_fires() {
    for mode in [TimerMode::Once, TimerMode::Repeating] {
        let mut t = timer(42, mode);
        assert!(t.tick(42));
        assert!(t.just_fired());
        assert!(!t.tick(0));
        assert!(!t.just_fired());
    }
}

#[test]
fn just_fired_reads_false_until_the_threshold() {
    let mut t = timer(100, TimerMode::Repeating);
    assert!(!t.tick(99));
    assert!(!t.just_fired());
    assert_eq!(t.elapsed(), 99);
    assert!(t.tick(1));
    assert!(t.just_fired());
    assert_eq!(t.elapsed(), 0);
    assert!(!t.tick(1));
    assert!(!t.just_fired());
    assert_eq!(t.elapsed(), 1);
}

#[test]
fn nine_thirds_fire_three_times() {
    let duration = 1_500_000;
    let mut t = timer(duration, TimerMode::Repeating);
    let mut fires = 0;
    let mut fired_on = Vec::new();
    for tick in 1..=9 {
        if t.tick(duration / 3) {
            fires += 1;
            fired_on.push(tick);
        }
    }
    assert_eq!(fires, 3);
    assert_eq!(fired_on, vec![3, 6, 9]);
    assert_eq!(t.elapsed(), 0);
}

#[test]
fn thirds_of_a_duration_that_three_does_not_divide_fall_short() {
    let mut t = timer(10, TimerMode::Repeating);
    let mut fires = 0;
    for _ in 0..9 {
        if t.tick(10 / 3) {
            fires += 1;
        }
    }
    assert_eq!(fires, 2);
    assert_eq!(t.elapsed(), 7);
}

#[test]
fn repeating_timer_keeps_the_remainder() {
    let mut t = timer(300, TimerMode::Repeating);
    assert!(t.tick(350));
    assert_eq!(t.elapsed(), 50);
    assert!(!t.tick(200));
    assert_eq!(t.elapsed(), 250);
    assert!(t.tick(100));
    assert_eq!(t.elapsed(), 50);
}

#[test]
fn lag_spike_fires_once_and_keeps_the_remainder() {
    let mut t = timer(300, TimerMode::Repeating);
    assert!(t.tick(1_000));
    assert_eq!(t.elapsed(), 100);
    assert!(!t.tick(0));
}

#[test]
fn greatest_delta_does_not_overflow() {
    let mut t = timer(1_000, TimerMode::Repeating);
    assert!(!t.tick(999));
    assert!(t.tick(u64::MAX));
    // 999 + 18446744073709551615 = 18446744073709552614, which ends in 614
    assert_eq!(t.elapsed(), 614);

    let mut t = timer(u64::MAX, TimerMode::Repeating);
    assert!(!t.tick(u64::MAX - 1));
    assert!(t.tick(u64::MAX));
    assert_eq!(t.elapsed(), u64::MAX - 1);

    let mut t = timer(u64::MAX, TimerMode::Once);
    assert!(!t.tick(u64::MAX - 1));
    assert!(t.tick(u64::MAX));
    assert_eq!(t.elapsed(), u64::MAX);
}

#[test]
fn one_shot_timer_fires_once() {
    let mut t = timer(100, TimerMode::Once);
    assert!(!t.tick(60));
    assert!(!t.finished());
    assert!(t.tick(60));
    assert!(t.just_fired());
    assert!(t.finished());
    assert_eq!(t.elapsed(), 100);
    for _ in 0..5 {
        assert!(!t.tick(1_000));
        assert!(!t.just_fired());
        assert!(t.finished());
        assert_eq!(t.elapsed(), 100);
    }
}

#[test]
fn repeating_timer_is_never_finished() {
    let mut t = timer(100, TimerMode::Repeating);
    assert!(t.tick(100));
    assert!(!t.finished());
}

#[test]
fn zero_delta_changes_nothing_but_the_signal() {
    let mut t = timer(100, TimerMode::Repeating);
    assert!(!t.tick(0));
    assert_eq!(t.elapsed(), 0);
    assert!(t.tick(150));
    assert!(!t.tick(0));
    assert_eq!(t.elapsed(), 50);
}

#[test]
fn elapsed_is_the_total_modulo_the_duration() {
    let deltas = [7u64, 300, 12, 0, 299, 1, 1_000_003, 5];
    let duration = 300u64;
    let mut t = timer(duration, TimerMode::Repeating);
    let mut total = 0u64;
    let mut fires = 0u64;
    for d in deltas {
        if t.tick(d) {
            fires += 1;
        }
        total += d;
        assert_eq!(t.elapsed(), total % duration);
        assert!(fires <= total / duration);
    }
}

#[test]
fn short_deltas_fire_once_for_each_duration() {
    let deltas = [7u64, 300, 12, 0, 299, 1, 150, 150, 300];
    let duration = 300u64;
    let mut t = timer(duration, TimerMode::Repeating);
    let mut total = 0u64;
    let mut fires = 0u64;
    for d in deltas {
        if t.tick(d) {
            fires += 1;
        }
        total += d;
        assert_eq!(fires, total / duration);
    }
    assert_eq!(fires, 4);
}
