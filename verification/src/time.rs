//! Nanosecond arithmetic shared by the scheduler and the animation clock.
//!
//! An instant is a `u64` count of nanoseconds on a monotonic clock and a
//! duration is a `u64` count of nanoseconds. Sums that would leave the range
//! stay at its end, and differences that would be negative are zero.

use vstd::prelude::*;

verus! {

/// Nanoseconds in one second.
pub const NANOS_PER_SEC: u64 = 1_000_000_000;

/// The instant `d` nanoseconds after `t`, or the last instant of the clock.
pub open spec fn instant_after(t: u64, d: u64) -> u64 {
    if t + d > u64::MAX {
        u64::MAX
    } else {
        (t + d) as u64
    }
}

/// The time from `earlier` to `later`, or zero when `later` comes first.
pub open spec fn elapsed_between(earlier: u64, later: u64) -> u64 {
    if later >= earlier {
        (later - earlier) as u64
    } else {
        0
    }
}

/// A refresh rate in frames per second, floored at one.
pub open spec fn floored_rate(rate: u64) -> u64 {
    if rate < 1 {
        1
    } else {
        rate
    }
}

/// The nominal time between two frames at `rate` frames per second.
pub open spec fn frame_period(rate: u64) -> u64 {
    (NANOS_PER_SEC as int / floored_rate(rate) as int) as u64
}

/// Computes [`instant_after`].
pub fn add_duration(t: u64, d: u64) -> (r: u64)
    ensures
        r == instant_after(t, d),
{
    t.saturating_add(d)
}

/// Computes [`elapsed_between`].
pub fn duration_since(later: u64, earlier: u64) -> (r: u64)
    ensures
        r == elapsed_between(earlier, later),
{
    later.saturating_sub(earlier)
}

/// Computes [`frame_period`]: a second divided by the rate, the rate taken as
/// one where it is zero. The last clause says the same by multiplication, so
/// that a caller who knows the rate can work the period out.
pub fn frame_period_of(rate: u64) -> (period: u64)
    ensures
        period == frame_period(rate),
        period <= NANOS_PER_SEC,
        period * floored_rate(rate) <= NANOS_PER_SEC < (period + 1) * floored_rate(rate),
{
    let floored: u64 = if rate < 1 { 1 } else { rate };
    assert(NANOS_PER_SEC as int / floored as int <= NANOS_PER_SEC) by (nonlinear_arith)
        requires
            floored >= 1,
    ;
    assert((NANOS_PER_SEC as int / floored as int) * floored <= NANOS_PER_SEC < (NANOS_PER_SEC as int
        / floored as int + 1) * floored) by (nonlinear_arith)
        requires
            floored >= 1,
    ;
    NANOS_PER_SEC / floored
}

/// A frame period is never longer than a second, and it is not empty unless
/// the rate is above a frame per nanosecond.
pub proof fn lemma_frame_period_bounds(rate: u64)
    ensures
        frame_period(rate) <= NANOS_PER_SEC,
        rate <= NANOS_PER_SEC ==> frame_period(rate) >= 1,
        rate <= 1 ==> frame_period(rate) == NANOS_PER_SEC,
{
    let floored = floored_rate(rate) as int;
    assert(NANOS_PER_SEC as int / floored <= NANOS_PER_SEC) by (nonlinear_arith)
        requires
            floored >= 1,
    ;
    if rate <= NANOS_PER_SEC {
        assert(NANOS_PER_SEC as int / floored >= 1) by (nonlinear_arith)
            requires
                1 <= floored <= NANOS_PER_SEC,
        ;
    }
}

} // verus!
