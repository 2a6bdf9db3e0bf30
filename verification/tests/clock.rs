use frame_scheduler::clock::catchup;
use frame_scheduler::clock::sub_steps;
use frame_scheduler::clock::AnimationClock;
use frame_scheduler::clock::SubSteps;
use frame_scheduler::clock::STALL_LIMIT;

const MS: u64 = 1_000_000;
const NOW: u64 = 10_000 * MS;

#[test]
fn a_small_lag_is_spread_over_ten_frames() {
    assert_eq!(catchup(4 * MS, 16 * MS), 400_000);
}

#[test]
fn a_lag_of_a_frame_or_more_is_made_up_at_once() {
    assert_eq!(catchup(40 * MS, 16 * MS), 40 * MS);
    assert_eq!(catchup(16 * MS, 16 * MS), 16 * MS);
}

#[test]
fn catchup_rounds_a_tenth_down() {
    assert_eq!(catchup(0, 16 * MS), 0);
    assert_eq!(catchup(9, 16 * MS), 0);
    assert_eq!(catchup(19, 16 * MS), 1);
    assert_eq!(catchup(16 * MS - 1, 16 * MS), 1_599_999);
}

#[test]
fn fifty_milliseconds_are_cut_into_six_sub_steps() {
    let steps = sub_steps(50 * MS);
    assert_eq!(steps, SubSteps { num_steps: 6, step: 8_333_333 });
    let sum = steps.num_steps * steps.step;
    assert!(sum <= 50 * MS);
    assert!(50 * MS - sum < steps.num_steps);
}

#[test]
fn sub_steps_are_never_longer_than_a_hundred_and_twentieth_second() {
    for step_dt in [1, 8_333_333, 8_333_334, 16 * MS, 16_666_666, 17 * MS, 999 * MS, 2000 * MS] {
        let steps = sub_steps(step_dt);
        assert!(steps.num_steps >= 1);
        assert!(steps.step * 120 <= 1_000_000_000);
        assert!(steps.num_steps * steps.step <= step_dt);
        assert!(step_dt - steps.num_steps * steps.step < steps.num_steps);
    }
}

#[test]
fn sub_step_counts_at_the_boundaries() {
    assert_eq!(sub_steps(8_333_333), SubSteps { num_steps: 1, step: 8_333_333 });
    assert_eq!(sub_steps(8_333_334), SubSteps { num_steps: 2, step: 4_166_667 });
    assert_eq!(sub_steps(16 * MS), SubSteps { num_steps: 2, step: 8 * MS });
    assert_eq!(sub_steps(1), SubSteps { num_steps: 1, step: 1 });
}

#[test]
fn an_empty_step_has_no_sub_steps() {
    assert_eq!(sub_steps(0), SubSteps { num_steps: 0, step: 0 });
}

#[test]
fn the_longest_step_is_cut_without_overflow() {
    let steps = sub_steps(u64::MAX);
    assert_eq!(steps.num_steps, 2_213_609_288_846);
    assert_eq!(steps.step, u64::MAX / 2_213_609_288_846);
    assert!(steps.step * 120 <= 1_000_000_000);
}

#[test]
fn a_stall_is_dropped_and_the_burst_starts_anew() {
    let mut clock = AnimationClock { animation_start: NOW - 2000 * MS, animation_time: 0 };
    let steps = clock.advance(NOW, 16 * MS);
    assert_eq!(clock.animation_start, NOW);
    assert_eq!(clock.animation_time, 32 * MS);
    assert_eq!(steps, sub_steps(32 * MS));
    assert_eq!(steps, SubSteps { num_steps: 4, step: 8 * MS });
}

#[test]
fn the_step_after_a_stall_does_not_depend_on_the_backlog() {
    let mut short = AnimationClock { animation_start: NOW - 1001 * MS, animation_time: 0 };
    let mut long = AnimationClock { animation_start: 0, animation_time: 5 * MS };
    short.advance(NOW, 10 * MS);
    long.advance(NOW, 10 * MS);
    assert_eq!(short, AnimationClock { animation_start: NOW, animation_time: 20 * MS });
    assert_eq!(long, short);
}

#[test]
fn a_lag_of_exactly_a_second_is_no_stall() {
    assert_eq!(STALL_LIMIT, 1000 * MS);
    let mut clock = AnimationClock { animation_start: NOW - 1000 * MS, animation_time: 0 };
    clock.advance(NOW, 16 * MS);
    assert_eq!(clock.animation_start, NOW - 1000 * MS);
    assert_eq!(clock.animation_time, 1016 * MS);
}

#[test]
fn a_step_smooths_a_small_lag() {
    let mut clock = AnimationClock { animation_start: NOW - 104 * MS, animation_time: 100 * MS };
    let steps = clock.advance(NOW, 16 * MS);
    assert_eq!(clock.animation_start, NOW - 104 * MS);
    assert_eq!(clock.animation_time, 100 * MS + 16 * MS + 400_000);
    assert_eq!(steps, sub_steps(16_400_000));
}

#[test]
fn a_step_snaps_a_large_lag() {
    let mut clock = AnimationClock { animation_start: NOW - 140 * MS, animation_time: 100 * MS };
    clock.advance(NOW, 16 * MS);
    assert_eq!(clock.animation_time, 100 * MS + 16 * MS + 40 * MS);
}

#[test]
fn a_clock_ahead_of_the_wall_clock_advances_by_the_frame_period() {
    let mut clock = AnimationClock { animation_start: NOW - 10 * MS, animation_time: 30 * MS };
    clock.advance(NOW, 16 * MS);
    assert_eq!(clock.animation_time, 46 * MS);
    let mut future = AnimationClock { animation_start: NOW + 10 * MS, animation_time: 0 };
    future.advance(NOW, 16 * MS);
    assert_eq!(future, AnimationClock { animation_start: NOW + 10 * MS, animation_time: 16 * MS });
}

#[test]
fn simulated_time_stays_at_the_end_of_the_range() {
    let mut clock = AnimationClock { animation_start: 0, animation_time: u64::MAX - 5 };
    clock.advance(0, 16 * MS);
    assert_eq!(clock.animation_time, u64::MAX);
    let mut huge = AnimationClock { animation_start: 0, animation_time: 0 };
    huge.advance(0, u64::MAX);
    assert_eq!(huge.animation_time, u64::MAX);
}

#[test]
fn the_deadline_is_start_plus_simulated_time() {
    let clock = AnimationClock { animation_start: 300 * MS, animation_time: 48 * MS };
    assert_eq!(clock.deadline(), 348 * MS);
    let late = AnimationClock { animation_start: u64::MAX - 1, animation_time: 48 * MS };
    assert_eq!(late.deadline(), u64::MAX);
    assert_eq!(AnimationClock::starting_at(7).deadline(), 7);
}
