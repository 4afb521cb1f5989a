use priest_game::timer::{GameTimer, TimerMode};

const SECOND: u64 = 1_000_000_000;

#[test]
fn one_shot_timer_clamps_at_duration() {
    let mut t = GameTimer::new(SECOND, TimerMode::Once);
    t.tick(SECOND / 2);
    assert_eq!(t.elapsed_ns(), SECOND / 2);
    assert!(!t.is_finished());
    assert!(!t.just_finished());
    assert_eq!(t.remaining_ns(), SECOND / 2);
    t.tick(SECOND);
    assert_eq!(t.elapsed_ns(), SECOND);
    assert!(t.is_finished());
    assert!(t.just_finished());
    assert_eq!(t.times_finished_this_tick(), 1);
    t.tick(SECOND / 2);
    assert!(t.is_finished());
    assert!(!t.just_finished());
    assert_eq!(t.elapsed_ns(), SECOND);
    assert_eq!(t.remaining_ns(), 0);
}

#[test]
fn repeating_timer_wraps_around() {
    let mut t = GameTimer::new(SECOND, TimerMode::Repeating);
    t.tick(SECOND + SECOND / 10);
    assert!(t.is_finished());
    assert_eq!(t.elapsed_ns(), SECOND / 10);
    t.tick(8 * SECOND / 10);
    assert!(!t.is_finished());
    assert_eq!(t.elapsed_ns(), 9 * SECOND / 10);
    t.tick(6 * SECOND / 10);
    assert!(t.is_finished());
    assert_eq!(t.elapsed_ns(), 5 * SECOND / 10);
}

#[test]
fn repeating_timer_counts_finishes() {
    let mut t = GameTimer::new(SECOND, TimerMode::Repeating);
    t.tick(6 * SECOND);
    assert_eq!(t.times_finished_this_tick(), 6);
    t.tick(2 * SECOND);
    assert_eq!(t.times_finished_this_tick(), 2);
    t.tick(SECOND / 2);
    assert_eq!(t.times_finished_this_tick(), 0);
    assert_eq!(t.mode(), TimerMode::Repeating);
}

#[test]
fn zero_duration_repeating_timer() {
    let mut t = GameTimer::new(0, TimerMode::Repeating);
    t.tick(5);
    assert!(t.is_finished());
    assert_eq!(t.elapsed_ns(), 0);
    assert_eq!(t.times_finished_this_tick(), u32::MAX);
}

#[test]
fn reset_starts_over() {
    let mut t = GameTimer::new(SECOND, TimerMode::Once);
    t.tick(3 * SECOND / 2);
    t.reset();
    assert!(!t.is_finished());
    assert!(!t.just_finished());
    assert_eq!(t.elapsed_ns(), 0);
    assert_eq!(t.duration_ns(), SECOND);
}

#[test]
fn ticks_add_up() {
    let mut split = GameTimer::new(SECOND, TimerMode::Repeating);
    split.tick(7 * SECOND / 10);
    split.tick(9 * SECOND / 10);
    let mut whole = GameTimer::new(SECOND, TimerMode::Repeating);
    whole.tick(16 * SECOND / 10);
    assert_eq!(split.elapsed_ns(), whole.elapsed_ns());
    let mut once_split = GameTimer::new(SECOND, TimerMode::Once);
    once_split.tick(7 * SECOND / 10);
    once_split.tick(9 * SECOND / 10);
    let mut once_whole = GameTimer::new(SECOND, TimerMode::Once);
    once_whole.tick(16 * SECOND / 10);
    assert_eq!(once_split.elapsed_ns(), once_whole.elapsed_ns());
    assert_eq!(once_split.is_finished(), once_whole.is_finished());
}
