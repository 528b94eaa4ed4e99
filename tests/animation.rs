use brawler::util::{AnimationIndices, AnimationTimer, Animator};

fn clip(first: usize, last: usize) -> AnimationIndices {
    AnimationIndices { first, last }
}

fn animator(first: usize, last: usize, period: u64, loops: bool) -> Animator {
    Animator::new(AnimationTimer::new(period), clip(first, last), loops)
}

#[test]
fn long_tick_advances_once_per_period_and_wraps() {
    let mut a = animator(0, 1, 250_000, true);
    a.tick(600_000);
    assert_eq!(a.index, 0);
    assert_eq!(a.timer.elapsed, 100_000);
    assert_eq!(a.timer.period, 250_000);
}

#[test]
fn short_tick_only_accumulates() {
    let mut a = animator(3, 6, 250_000, true);
    a.tick(249_999);
    assert_eq!(a.index, 3);
    assert_eq!(a.timer.elapsed, 249_999);
    a.tick(1);
    assert_eq!(a.index, 4);
    assert_eq!(a.timer.elapsed, 0);
}

#[test]
fn tick_steps_through_clip() {
    let mut a = animator(2, 5, 30_000, false);
    a.tick(30_000);
    assert_eq!(a.index, 3);
    a.tick(65_000);
    assert_eq!(a.index, 5);
    assert_eq!(a.timer.elapsed, 5_000);
}

#[test]
fn non_looping_clip_holds_last_frame() {
    let mut a = animator(6, 7, 100_000, false);
    a.tick(1_000_000);
    assert_eq!(a.index, 7);
    a.tick(100_000);
    assert_eq!(a.index, 7);
}

#[test]
fn looping_clip_wraps_many_times() {
    let mut a = animator(10, 12, 10, true);
    a.tick(70);
    // seven steps over three frames: 10 -> 11 -> 12 -> 10 -> 11 -> 12 -> 10 -> 11
    assert_eq!(a.index, 11);
    assert_eq!(a.timer.elapsed, 0);
}

#[test]
fn frame_stays_in_clip_over_many_ticks() {
    let mut a = animator(4, 9, 33_333, true);
    let deltas = [0u64, 1, 16_667, 50_000, 1_000_000, 7, 99_999, 33_333, 5_000_000];
    for d in deltas {
        a.tick(d);
        assert!(a.indices.first <= a.index && a.index <= a.indices.last);
    }
}

#[test]
fn same_clip_does_not_restart() {
    let mut a = animator(0, 3, 100_000, true);
    a.tick(250_000);
    assert_eq!(a.index, 2);
    assert_eq!(a.timer.elapsed, 50_000);
    for _ in 0..5 {
        a.set_indices(clip(0, 3));
        assert_eq!(a.index, 2);
        assert_eq!(a.timer.elapsed, 50_000);
    }
}

#[test]
fn new_clip_restarts_at_first_frame() {
    let mut a = animator(0, 3, 100_000, true);
    a.tick(250_000);
    a.set_indices(clip(6, 7));
    assert_eq!(a.index, 6);
    assert_eq!(a.timer.elapsed, 0);
    assert_eq!(a.indices, clip(6, 7));
}

#[test]
fn set_indices_from_bounds_switches_clip() {
    let mut a = animator(0, 1, 100_000, true);
    a.tick(100_000);
    a.set_indices_from_bounds(0, 1);
    assert_eq!(a.index, 1);
    a.set_indices_from_bounds(8, 9);
    assert_eq!(a.index, 8);
    assert_eq!(a.indices, clip(8, 9));
    assert_eq!(a.timer.elapsed, 0);
}

#[test]
fn set_frametime_changes_period_only() {
    let mut a = animator(0, 1, 250_000, true);
    a.tick(100_000);
    a.set_frametime(50_000);
    assert_eq!(a.timer.period, 50_000);
    assert_eq!(a.timer.elapsed, 100_000);
    assert_eq!(a.index, 0);
    // the time already elapsed counts toward the shorter period
    a.tick(0);
    assert_eq!(a.index, 0);
    assert_eq!(a.timer.elapsed, 0);
}

#[test]
fn play_sets_clip_period_and_looping() {
    let mut a = animator(0, 1, 250_000, true);
    a.play(clip(2, 5), 30_000, false);
    assert_eq!(a.indices, clip(2, 5));
    assert_eq!(a.index, 2);
    assert_eq!(a.timer.period, 30_000);
    assert!(!a.loops);
}

#[test]
fn new_animator_starts_at_first_frame() {
    let a = animator(4, 4, 100_000, false);
    assert_eq!(a.index, 4);
    assert_eq!(a.timer.elapsed, 0);
}

#[test]
fn clip_equality_compares_both_bounds() {
    assert!(clip(1, 2) == clip(1, 2));
    assert!(clip(1, 2) != clip(1, 3));
    assert!(clip(0, 2) != clip(1, 2));
}
