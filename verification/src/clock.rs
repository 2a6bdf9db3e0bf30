//! The animation clock: turns wall-clock time into simulated animation time.
//!
//! Each step advances the simulation by one nominal frame period plus a
//! catch-up for the lag behind the wall clock. A small lag is spread over
//! several frames, a lag of a frame or more is made up at once, and a lag of
//! more than a second (the process was stopped for a while) is dropped. The
//! step is then cut into sub-steps no longer than 1/120 s.

use crate::time::NANOS_PER_SEC;
use vstd::prelude::*;

verus! {

/// A lag of more than this is treated as a stall and discarded.
pub const STALL_LIMIT: u64 = 1_000_000_000;

/// A lag shorter than a frame is made up over this many frames.
pub const SMOOTHING_FRAMES: u64 = 10;

/// No sub-step is longer than a second divided by this.
pub const MAX_STEPS_PER_SEC: u64 = 120;

/// The part of a lag of `raw_delta` that one step makes up, at a frame period
/// of `dt_target`: all of it once it has reached a frame period, a tenth of it
/// below that.
pub open spec fn catchup_for(raw_delta: u64, dt_target: u64) -> u64 {
    if raw_delta >= dt_target {
        raw_delta
    } else {
        (raw_delta as int / SMOOTHING_FRAMES as int) as u64
    }
}

/// The number of sub-steps for a step of `step_dt`: the step measured in
/// units of 1/120 s, rounded up.
pub open spec fn num_steps_for(step_dt: u64) -> u64 {
    ((step_dt * MAX_STEPS_PER_SEC + NANOS_PER_SEC - 1) / NANOS_PER_SEC as int) as u64
}

/// How one animation step is cut into equal sub-steps.
#[derive(Clone, Copy, Debug, PartialEq, Eq, Structural)]
pub struct SubSteps {
    /// How often the animation is advanced.
    pub num_steps: u64,
    /// The time by which each sub-step advances it.
    pub step: u64,
}

/// The sub-steps of a step of `step_dt`. An empty step has none.
pub open spec fn sub_steps_for(step_dt: u64) -> SubSteps {
    let n = num_steps_for(step_dt);
    SubSteps { num_steps: n, step: if n == 0 { 0 } else { (step_dt as int / n as int) as u64 } }
}

/// When the current burst of animation began, and how much animation time
/// has been simulated since then.
#[derive(Clone, Copy, Debug, PartialEq, Eq, Structural)]
pub struct AnimationClock {
    /// The instant at which the current burst began.
    pub animation_start: u64,
    /// The simulated time since `animation_start`.
    pub animation_time: u64,
}

impl AnimationClock {
    /// The instant up to which the animation has been simulated.
    pub open spec fn front(self) -> u64 {
        crate::time::instant_after(self.animation_start, self.animation_time)
    }

    /// How far the simulation lags behind the wall clock at `now`; zero when
    /// it is ahead.
    pub open spec fn raw_delta(self, now: u64) -> u64 {
        let elapsed = crate::time::elapsed_between(self.animation_start, now);
        crate::time::elapsed_between(self.animation_time, elapsed)
    }

    /// Whether the lag at `now` is so large that the backlog is dropped.
    pub open spec fn stalled(self, now: u64) -> bool {
        self.raw_delta(now) > STALL_LIMIT
    }

    /// The time by which a step at `now` advances the simulation.
    pub open spec fn step_dt(self, now: u64, dt_target: u64) -> u64 {
        let delta = if self.stalled(now) { dt_target } else { self.raw_delta(now) };
        crate::time::instant_after(dt_target, catchup_for(delta, dt_target))
    }

    /// The clock after a step at `now`. After a stall the burst starts anew
    /// at `now`.
    pub open spec fn advanced(self, now: u64, dt_target: u64) -> AnimationClock {
        let base = if self.stalled(now) {
            AnimationClock { animation_start: now, animation_time: 0 }
        } else {
            self
        };
        AnimationClock {
            animation_start: base.animation_start,
            animation_time: crate::time::instant_after(
                base.animation_time,
                self.step_dt(now, dt_target),
            ),
        }
    }

    /// A clock whose burst begins at `now` with nothing simulated yet.
    pub fn starting_at(now: u64) -> (clock: AnimationClock)
        ensures
            clock == (AnimationClock { animation_start: now, animation_time: 0 }),
    {
        AnimationClock { animation_start: now, animation_time: 0 }
    }

    /// The instant up to which the animation has been simulated.
    pub fn deadline(&self) -> (t: u64)
        ensures
            t == self.front(),
    {
        self.animation_start.saturating_add(self.animation_time)
    }

    /// Advances the simulation by one step taken at `now`, with a nominal
    /// frame period of `dt_target`, and returns the sub-steps in which the
    /// animation is to be advanced.
    pub fn advance(&mut self, now: u64, dt_target: u64) -> (steps: SubSteps)
        ensures
            *final(self) == old(self).advanced(now, dt_target),
            steps == sub_steps_for(old(self).step_dt(now, dt_target)),
    {
        let elapsed: u64 = now.saturating_sub(self.animation_start);
        let mut delta: u64 = elapsed.saturating_sub(self.animation_time);
        if delta > STALL_LIMIT {
            self.animation_start = now;
            self.animation_time = 0;
            delta = dt_target;
        }
        let step_dt: u64 = dt_target.saturating_add(catchup(delta, dt_target));
        self.animation_time = self.animation_time.saturating_add(step_dt);
        sub_steps(step_dt)
    }
}

/// Computes [`catchup_for`].
pub fn catchup(raw_delta: u64, dt_target: u64) -> (extra: u64)
    ensures
        extra == catchup_for(raw_delta, dt_target),
{
    if raw_delta >= dt_target {
        raw_delta
    } else {
        raw_delta / SMOOTHING_FRAMES
    }
}

/// Computes [`sub_steps_for`].
pub fn sub_steps(step_dt: u64) -> (steps: SubSteps)
    ensures
        steps == sub_steps_for(step_dt),
{
    let scaled: u128 = step_dt as u128 * MAX_STEPS_PER_SEC as u128;
    let rounded_up: u128 = (scaled + (NANOS_PER_SEC as u128 - 1)) / NANOS_PER_SEC as u128;
    let num_steps: u64 = rounded_up as u64;
    let step: u64 = if num_steps == 0 { 0 } else { step_dt / num_steps };
    SubSteps { num_steps, step }
}

/// The number of sub-steps is the least count of 1/120 s intervals that
/// covers the step.
pub proof fn lemma_num_steps_is_least_cover(step_dt: u64)
    ensures
        num_steps_for(step_dt) * NANOS_PER_SEC >= step_dt * MAX_STEPS_PER_SEC,
        step_dt > 0 ==> (num_steps_for(step_dt) - 1) * NANOS_PER_SEC < step_dt
            * MAX_STEPS_PER_SEC,
        step_dt == 0 <==> num_steps_for(step_dt) == 0,
{
}

/// No sub-step is longer than 1/120 s, and the sub-steps together make up
/// the step but for a remainder smaller than their number in nanoseconds.
pub proof fn lemma_sub_steps_cover_step(step_dt: u64)
    ensures
        sub_steps_for(step_dt).step * MAX_STEPS_PER_SEC <= NANOS_PER_SEC,
        sub_steps_for(step_dt).num_steps * sub_steps_for(step_dt).step <= step_dt,
        step_dt > 0 ==> step_dt - sub_steps_for(step_dt).num_steps * sub_steps_for(step_dt).step
            < sub_steps_for(step_dt).num_steps,
{
    let n = num_steps_for(step_dt) as int;
    let s = sub_steps_for(step_dt).step as int;
    let d = step_dt as int;
    lemma_num_steps_is_least_cover(step_dt);
    if n > 0 {
        assert(s == d / n);
        assert(n * s <= d && d - n * s < n) by (nonlinear_arith)
            requires
                n > 0,
                d >= 0,
                s == d / n,
        ;
        assert(s * 120 <= 1_000_000_000) by (nonlinear_arith)
            requires
                n > 0,
                s >= 0,
                n * s <= d,
                n * 1_000_000_000 >= d * 120,
        ;
    }
}

/// After a stall the burst starts anew at the instant of the step, and the
/// simulated time is the step itself, whatever the backlog was: the frame
/// period once as the nominal advance and once more as its catch-up.
pub proof fn lemma_stall_recovery(clock: AnimationClock, now: u64, dt_target: u64)
    requires
        clock.stalled(now),
    ensures
        clock.advanced(now, dt_target).animation_start == now,
        clock.advanced(now, dt_target).animation_time == clock.step_dt(now, dt_target),
        clock.step_dt(now, dt_target) == crate::time::instant_after(dt_target, dt_target),
{
}

/// Without a stall a step keeps the start of the burst and never takes
/// simulated time back; it adds at least the frame period unless the clock
/// is at the end of its range.
pub proof fn lemma_step_is_monotonic(clock: AnimationClock, now: u64, dt_target: u64)
    requires
        !clock.stalled(now),
    ensures
        clock.advanced(now, dt_target).animation_start == clock.animation_start,
        clock.advanced(now, dt_target).animation_time >= clock.animation_time,
        clock.advanced(now, dt_target).animation_time == crate::time::instant_after(
            clock.animation_time,
            clock.step_dt(now, dt_target),
        ),
        clock.step_dt(now, dt_target) >= dt_target,
{
}

/// A lag below the frame period is spread over ten frames, a lag of a frame
/// period or more is made up in one step.
pub proof fn lemma_catchup_smooths_or_snaps(raw_delta: u64, dt_target: u64)
    ensures
        raw_delta < dt_target ==> catchup_for(raw_delta, dt_target) == raw_delta as int / 10,
        raw_delta >= dt_target ==> catchup_for(raw_delta, dt_target) == raw_delta,
        catchup_for(raw_delta, dt_target) <= raw_delta,
{
}

} // verus!
