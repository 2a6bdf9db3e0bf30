use frame_scheduler::time::add_duration;
use frame_scheduler::time::duration_since;
use frame_scheduler::time::frame_period_of;
use frame_scheduler::time::NANOS_PER_SEC;

#[test]
fn frame_period_is_a_second_divided_by_the_rate() {
    assert_eq!(frame_period_of(60), 16_666_666);
    assert_eq!(frame_period_of(5), 200_000_000);
    assert_eq!(frame_period_of(1), NANOS_PER_SEC);
    assert_eq!(frame_period_of(120), 8_333_333);
    assert_eq!(frame_period_of(144), 6_944_444);
}

#[test]
fn a_rate_of_zero_counts_as_one_frame_per_second() {
    assert_eq!(frame_period_of(0), NANOS_PER_SEC);
}

#[test]
fn a_rate_above_the_clock_resolution_has_an_empty_period() {
    assert_eq!(frame_period_of(NANOS_PER_SEC), 1);
    assert_eq!(frame_period_of(NANOS_PER_SEC + 1), 0);
    assert_eq!(frame_period_of(u64::MAX), 0);
}

#[test]
fn instants_stay_at_the_end_of_the_clock() {
    assert_eq!(add_duration(10, 5), 15);
    assert_eq!(add_duration(u64::MAX - 5, 5), u64::MAX);
    assert_eq!(add_duration(u64::MAX - 5, 6), u64::MAX);
    assert_eq!(add_duration(u64::MAX, u64::MAX), u64::MAX);
}

#[test]
fn elapsed_time_is_never_negative() {
    assert_eq!(duration_since(15, 10), 5);
    assert_eq!(duration_since(10, 10), 0);
    assert_eq!(duration_since(10, 15), 0);
}
