//! What holds of the render state of a window over all its states: how the
//! wake time is chosen, in which order buffered batches come out, how the
//! focus moves, and which steps leave which parts of the state alone.

use crate::decision::ShouldRender;
use crate::time::elapsed_between;
use crate::time::floored_rate;
use crate::time::frame_period;
use crate::time::instant_after;
use crate::window::events::DrawCommandResult;
use crate::window::events::UserEvent;
use crate::window::route::RouteWindowView;
use crate::window::route::UserEventOutcome;
use crate::window::settings::WindowSettings;
use vstd::prelude::*;

verus! {

/// While a render is pending, the event loop wakes at the instant up to
/// which the animation is simulated, whatever the render decision is: the
/// start of the burst plus the simulated time, as far as the clock reaches.
pub proof fn lemma_pending_render_deadline<B>(
    window: RouteWindowView<B>,
    decision: ShouldRender,
    now: u64,
    settings: WindowSettings,
)
    requires
        window.pending_render,
    ensures
        (RouteWindowView { should_render: decision, ..window }).event_deadline(now, settings)
            == window.clock.front(),
        window.clock.animation_start + window.clock.animation_time <= u64::MAX ==> (RouteWindowView {
            should_render: decision,
            ..window
        }).event_deadline(now, settings) == window.clock.animation_start
            + window.clock.animation_time,
{
}

/// An unfocused window that has been painted, with no render pending and
/// nothing asking for a frame, wakes the event loop one idle frame period
/// after its last frame: the idle refresh rate applies, not the active one.
pub proof fn lemma_idle_refresh_selection<B>(
    window: RouteWindowView<B>,
    now: u64,
    settings: WindowSettings,
)
    requires
        window.focused is Unfocused,
        !window.pending_render,
        window.should_render is Wait,
    ensures
        window.refresh_rate(settings) == floored_rate(settings.refresh_rate_idle),
        window.frame_deadline(settings) == instant_after(
            window.previous_frame_start,
            frame_period(settings.refresh_rate_idle),
        ),
        window.event_deadline(now, settings) == window.frame_deadline(settings),
{
}

/// A window that is focused, or has not been painted since it lost the
/// focus, is paced by the active refresh rate.
pub proof fn lemma_active_refresh_selection<B>(window: RouteWindowView<B>, settings: WindowSettings)
    requires
        window.focused is Focused || window.focused is UnfocusedNotDrawn,
    ensures
        window.refresh_rate(settings) == floored_rate(settings.refresh_rate),
        window.frame_deadline(settings) == instant_after(
            window.previous_frame_start,
            frame_period(settings.refresh_rate),
        ),
{
}

/// Without a pending render the wake time never lies behind the frame
/// deadline, and a decision of `Immediately` wakes the loop at once.
pub proof fn lemma_event_deadline_bounds<B>(
    window: RouteWindowView<B>,
    now: u64,
    settings: WindowSettings,
)
    requires
        !window.pending_render,
    ensures
        window.should_render is Immediately ==> window.event_deadline(now, settings) == now,
        !(window.should_render is Immediately) ==> window.event_deadline(now, settings)
            <= window.frame_deadline(settings),
        window.should_render matches ShouldRender::Deadline(deadline) ==> window.event_deadline(
            now,
            settings,
        ) <= deadline,
{
}

/// The next frame is never due later than a second after the last one.
pub proof fn lemma_frame_deadline_within_a_second<B>(
    window: RouteWindowView<B>,
    settings: WindowSettings,
)
    ensures
        window.frame_deadline(settings) <= instant_after(
            window.previous_frame_start,
            crate::time::NANOS_PER_SEC,
        ),
        window.frame_deadline(settings) >= window.previous_frame_start,
{
    crate::time::lemma_frame_period_bounds(window.refresh_rate(settings));
    assert(floored_rate(window.refresh_rate(settings)) == window.refresh_rate(settings));
}

/// The frame timing changes only when a render completes or a cycle idles:
/// no other step touches the start of the last frame or the time between
/// the last two.
pub proof fn lemma_frame_timing_changes_only_with_frames<B>(
    window: RouteWindowView<B>,
    now: u64,
    dt_target: u64,
    decision: ShouldRender,
    still_animating: Seq<bool>,
    skipped_frame: bool,
    throttled: bool,
    focused: bool,
    event: UserEvent<B>,
    result: DrawCommandResult,
)
    ensures
        ({
            let timing = |w: RouteWindowView<B>| (w.previous_frame_start, w.last_dt);
            &&& timing(window.with_decision(decision)) == timing(window)
            &&& timing(window.animation_period_reset(now)) == timing(window)
            &&& timing(window.animated(now, dt_target)) == timing(window)
            &&& timing(window.animation_finished(still_animating)) == timing(window)
            &&& timing(window.render_scheduled(skipped_frame, throttled)) == timing(window)
            &&& timing(window.drawn()) == timing(window)
            &&& timing(window.redraw_requested()) == timing(window)
            &&& timing(window.buffer_flushed()) == timing(window)
            &&& timing(window.focus_changed(focused)) == timing(window)
            &&& timing(window.user_event(event)) == timing(window)
            &&& timing(window.draw_commands_handled(result)) == timing(window)
            &&& timing(window.rendered(now)) == (now, elapsed_between(
                window.previous_frame_start,
                now,
            ))
            &&& timing(window.idled(now)) == timing(window.rendered(now))
        }),
{
}

/// Batches that arrive while a render is pending are queued behind those
/// that already wait, in the order of their arrival, and change nothing
/// else.
pub proof fn lemma_batches_wait_in_order<B>(window: RouteWindowView<B>, batches: Seq<B>)
    requires
        window.pending_render,
    ensures
        window.batches_arrived(batches) == (RouteWindowView {
            pending_draw_commands: window.pending_draw_commands + batches,
            ..window
        }),
    decreases batches.len(),
{
    if batches.len() == 0 {
        assert(window.pending_draw_commands + batches =~= window.pending_draw_commands);
    } else {
        lemma_batches_wait_in_order(window, batches.drop_last());
        assert((window.pending_draw_commands + batches.drop_last()).push(batches.last())
            =~= window.pending_draw_commands + batches);
    }
}

/// Batches that arrive between the commitment of a render and its
/// execution are handed out right after that render, exactly those and in
/// the order of their arrival; the queue is then empty, so that none is
/// handed out twice, and if there was any the next frame is due at once.
pub proof fn lemma_buffered_batches_applied_once<B>(
    window: RouteWindowView<B>,
    batches: Seq<B>,
    now: u64,
)
    requires
        window.pending_render,
        window.pending_draw_commands.len() == 0,
    ensures
        window.batches_arrived(batches).rendered(now).pending_draw_commands == batches,
        window.batches_arrived(batches).rendered(now).buffer_flushed().pending_draw_commands.len()
            == 0,
        batches.len() > 0 ==> window.batches_arrived(batches).rendered(
            now,
        ).buffer_flushed().should_render is Immediately,
        window.batches_arrived(batches).rendered(now).buffer_flushed().buffer_flushed()
            == window.batches_arrived(batches).rendered(now).buffer_flushed(),
{
    lemma_batches_wait_in_order(window, batches);
    assert(window.pending_draw_commands + batches =~= batches);
}

/// A batch that arrives while no render is pending is not queued: it is to
/// be taken in at once, and the next frame is due at once.
pub proof fn lemma_batch_without_pending_render<B>(window: RouteWindowView<B>, batch: B)
    requires
        !window.pending_render,
    ensures
        window.user_event(UserEvent::DrawCommandBatch(batch)).pending_draw_commands
            == window.pending_draw_commands,
        window.user_event(UserEvent::DrawCommandBatch(batch)).should_render is Immediately,
        window.user_event_outcome(UserEvent::DrawCommandBatch(batch)) == UserEventOutcome::Handle(
            UserEvent::DrawCommandBatch(batch),
        ),
{
}

/// The focus moves as follows: gaining it leads to `Focused` from every
/// state, losing it to `UnfocusedNotDrawn`, and a completed render leads from
/// there to `Unfocused` and leaves the other two states as they are.
pub proof fn lemma_focus_transitions<B>(window: RouteWindowView<B>, now: u64)
    ensures
        window.focus_changed(true).focused is Focused,
        window.focus_changed(false).focused is UnfocusedNotDrawn,
        window.focused is UnfocusedNotDrawn ==> window.rendered(now).focused is Unfocused,
        !(window.focused is UnfocusedNotDrawn) ==> window.rendered(now).focused == window.focused,
{
}

/// A skipped frame makes the cycle animate, and nothing is rendered in a
/// cycle that skipped a frame; a committed render stays committed.
pub proof fn lemma_skipped_frame_is_not_rendered<B>(
    window: RouteWindowView<B>,
    res: ShouldRender,
    now: u64,
    idle: bool,
    throttled: bool,
)
    requires
        window.skipped_frame(now),
    ensures
        window.should_prepare(now),
        window.cycle_animates(res, now, idle),
        RouteWindowView::<B>::render_schedule(true, throttled) is Skip,
        window.render_scheduled(true, throttled) == window,
{
}

/// A cycle that does not animate leaves the animation clock alone, zeroes
/// the count of consecutive renders and brings the frame timing up to `now`;
/// this happens exactly when the scheduler saves power while idle, no frame
/// is due at once and none was skipped.
pub proof fn lemma_idle_cycle<B>(
    window: RouteWindowView<B>,
    res: ShouldRender,
    now: u64,
    idle: bool,
    dt_target: u64,
)
    requires
        !window.cycle_animates(res, now, idle),
    ensures
        idle,
        !(window.should_render.merged(res) is Immediately),
        window.cycle_plan(res, now, idle, dt_target) is Idle,
        window.cycled(res, now, idle, dt_target).clock == window.clock,
        window.cycled(res, now, idle, dt_target).num_consecutive_rendered == 0,
        window.cycled(res, now, idle, dt_target).previous_frame_start == now,
        window.cycled(res, now, idle, dt_target).last_dt == elapsed_between(
            window.previous_frame_start,
            now,
        ),
{
}

/// An animated cycle that follows an idle one starts its burst at `now`, so
/// that the idle time is not made up: the simulated time is one step from
/// zero.
pub proof fn lemma_animation_restarts_after_idle<B>(
    window: RouteWindowView<B>,
    res: ShouldRender,
    now: u64,
    idle: bool,
    dt_target: u64,
)
    requires
        window.cycle_animates(res, now, idle),
        window.num_consecutive_rendered == 0,
    ensures
        window.cycled(res, now, idle, dt_target).clock.animation_start == now,
        window.cycled(res, now, idle, dt_target).clock.animation_time == dt_target,
        window.cycled(res, now, idle, dt_target).should_render is Wait,
{
}

} // verus!
