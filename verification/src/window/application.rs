//! The application: the scheduler's settings and the window wrapper, and the
//! per-cycle sequence that decides when to animate, render and wake up.

use crate::clock::SubSteps;
use crate::clock::sub_steps_for;
use crate::decision::ShouldRender;
use crate::window::effects::Effect;
use crate::window::events::StartCause;
use crate::window::events::UserEvent;
use crate::window::events::WindowEvent;
use crate::window::route::CyclePlan;
use crate::window::route::RenderSchedule;
use crate::window::route::RouteWindowView;
use crate::window::route::UIState;
use crate::window::route::UserEventOutcome;
use crate::window::settings::WindowSettings;
use crate::window::settings::WindowSize;
use crate::window::window_wrapper::WinitWindowWrapper;
use crate::window::window_wrapper::WinitWindowWrapperView;
use vstd::prelude::*;

verus! {

/// Whether the window has the focus, and if not, whether a frame has been
/// painted since it lost it.
#[derive(Clone, Copy, Debug, PartialEq, Eq, Structural)]
pub enum FocusedState {
    Focused,
    UnfocusedNotDrawn,
    Unfocused,
}

impl FocusedState {
    /// The state after the window has gained (`true`) or lost (`false`) the
    /// focus.
    pub open spec fn after_focus_event(self, focused: bool) -> FocusedState {
        if focused {
            FocusedState::Focused
        } else {
            FocusedState::UnfocusedNotDrawn
        }
    }

    /// The state after a frame has been painted.
    pub open spec fn after_render(self) -> FocusedState {
        if self is UnfocusedNotDrawn {
            FocusedState::Unfocused
        } else {
            self
        }
    }

    /// Whether the active refresh rate applies, rather than the idle one.
    pub open spec fn uses_active_rate(self) -> bool {
        self is Focused || self is UnfocusedNotDrawn
    }
}

/// What an event of the platform window leads to.
pub struct WindowEventPlan {
    /// A committed render waits and the platform has called back: render
    /// now, then apply the buffered batches.
    pub render_now: bool,
    /// What is to be carried out, in this order.
    pub effects: Vec<Effect>,
}

/// The scheduler of an application: whether it saves power while idle, and
/// its windows.
pub struct Application<B> {
    /// Whether nothing is animated unless a frame is asked for.
    pub idle: bool,
    pub window_wrapper: WinitWindowWrapper<B>,
}

/// The application as a mathematical value.
#[verifier::ext_equal]
pub struct ApplicationView<B> {
    pub idle: bool,
    pub window_wrapper: WinitWindowWrapperView<B>,
}

impl<B> View for Application<B> {
    type V = ApplicationView<B>;

    open spec fn view(&self) -> ApplicationView<B> {
        ApplicationView { idle: self.idle, window_wrapper: self.window_wrapper@ }
    }
}

impl<B> ApplicationView<B> {
    /// Whether the application has a window `id`.
    pub open spec fn has_route(self, id: u64) -> bool {
        self.window_wrapper.routes.contains_key(id)
    }

    /// The state of the window `id`.
    pub open spec fn route(self, id: u64) -> RouteWindowView<B> {
        self.window_wrapper.routes[id]
    }

    /// The application with the window `id`, if it has one, in the state
    /// `window`; unchanged if it has none.
    pub open spec fn with_route(self, id: u64, window: RouteWindowView<B>) -> Self {
        if self.has_route(id) {
            ApplicationView { window_wrapper: self.window_wrapper.with_route(id, window), ..self }
        } else {
            self
        }
    }

    /// The state of the window `id` once the scheduler's own share of a
    /// window event is taken in: a redraw request, or a change of focus.
    pub open spec fn window_event_noted(self, id: u64, event: WindowEvent) -> RouteWindowView<B> {
        match event {
            WindowEvent::RedrawRequested => self.route(id).redraw_requested(),
            WindowEvent::Focused(focused) => self.route(id).focus_changed(focused),
            _ => self.route(id),
        }
    }

    /// Whether a window event finds a committed render to execute.
    pub open spec fn window_event_renders_now(self, id: u64, event: WindowEvent) -> bool {
        event is RedrawRequested && self.route(id).pending_render
    }

    /// The application after an event of the window `id`, which it has.
    pub open spec fn window_event(self, id: u64, event: WindowEvent) -> Self {
        let noted = self.window_wrapper.with_route(id, self.window_event_noted(id, event));
        let handled = noted.window_event_handled(id, event);
        ApplicationView {
            window_wrapper: if noted.window_event_renders(id, event) {
                handled.with_route(
                    id,
                    RouteWindowView { should_render: ShouldRender::Immediately, ..handled.routes[id] },
                )
            } else {
                handled
            },
            ..self
        }
    }

    /// What an event of the window `id` leads to.
    pub open spec fn window_event_effects(self, id: u64, event: WindowEvent) -> Seq<Effect> {
        self.window_wrapper.with_route(id, self.window_event_noted(id, event)).window_event_effects(
            id,
            event,
        )
    }
}

/// Whether a wake-up of the event loop is one at which a window is
/// created.
pub open spec fn creates_window(cause: StartCause) -> bool {
    cause is Init || cause is CreateWindow
}

impl<B> Application<B> {
    /// An application without windows.
    pub fn new(idle: bool, initial_window_size: WindowSize, settings: WindowSettings) -> (app:
        Application<B>)
        ensures
            app@ == (ApplicationView::<B> {
                idle,
                window_wrapper: WinitWindowWrapperView::initial(initial_window_size, settings),
            }),
    {
        Application { idle, window_wrapper: WinitWindowWrapper::new(initial_window_size, settings) }
    }

    /// The refresh rate that applies to the window `id`.
    pub fn get_refresh_rate(&self, id: u64) -> (rate: Option<u64>)
        ensures
            rate == (if self@.has_route(id) {
                Some(self@.route(id).refresh_rate(self@.window_wrapper.settings))
            } else {
                None
            }),
    {
        match self.window_wrapper.route(id) {
            Some(window) => Some(window.get_refresh_rate(&self.window_wrapper.settings)),
            None => None,
        }
    }

    /// When the next frame of the window `id` is due by the refresh rate
    /// alone.
    pub fn get_frame_deadline(&self, id: u64) -> (deadline: Option<u64>)
        ensures
            deadline == (if self@.has_route(id) {
                Some(self@.route(id).frame_deadline(self@.window_wrapper.settings))
            } else {
                None
            }),
    {
        match self.window_wrapper.route(id) {
            Some(window) => Some(window.get_frame_deadline(&self.window_wrapper.settings)),
            None => None,
        }
    }

    /// When the event loop has to wake up next for the window `id`. It is
    /// to be asked again after every event.
    pub fn get_event_deadline(&self, id: u64, now: u64) -> (deadline: Option<u64>)
        ensures
            deadline == (if self@.has_route(id) {
                Some(self@.route(id).event_deadline(now, self@.window_wrapper.settings))
            } else {
                None
            }),
    {
        match self.window_wrapper.route(id) {
            Some(window) => Some(window.get_event_deadline(now, &self.window_wrapper.settings)),
            None => None,
        }
    }

    /// Whether a cycle at `now` prepares a frame for the window `id`.
    pub fn should_prepare(&self, id: u64, now: u64) -> (prepare: Option<bool>)
        ensures
            prepare == (if self@.has_route(id) {
                Some(self@.route(id).should_prepare(now))
            } else {
                None
            }),
    {
        match self.window_wrapper.route(id) {
            Some(window) => Some(window.should_prepare(now)),
            None => None,
        }
    }

    /// Starts an animated cycle of the window `id` at `now`. Returns whether
    /// there is such a window.
    pub fn reset_animation_period(&mut self, id: u64, now: u64) -> (found: bool)
        ensures
            found == old(self)@.has_route(id),
            final(self)@ =~= old(self)@.with_route(
                id,
                old(self)@.route(id).animation_period_reset(now),
            ),
    {
        match self.window_wrapper.route_mut(id) {
            Some(window) => {
                window.reset_animation_period(now);
                true
            },
            None => false,
        }
    }

    /// Advances the animation clock of the window `id` by one step taken at
    /// `now`, and returns the sub-steps in which its content is to be
    /// advanced.
    pub fn animate(&mut self, id: u64, now: u64, dt_target: u64) -> (steps: Option<SubSteps>)
        ensures
            steps == (if old(self)@.has_route(id) {
                Some(sub_steps_for(old(self)@.route(id).clock.step_dt(now, dt_target)))
            } else {
                None
            }),
            final(self)@ =~= old(self)@.with_route(
                id,
                old(self)@.route(id).animated(now, dt_target),
            ),
    {
        match self.window_wrapper.route_mut(id) {
            Some(window) => Some(window.animate(now, dt_target)),
            None => None,
        }
    }

    /// Takes in what the sub-steps of the window `id` reported. Returns
    /// whether there is such a window.
    pub fn finish_animate(&mut self, id: u64, still_animating: &Vec<bool>) -> (found: bool)
        ensures
            found == old(self)@.has_route(id),
            final(self)@ =~= old(self)@.with_route(
                id,
                old(self)@.route(id).animation_finished(still_animating@),
            ),
    {
        match self.window_wrapper.route_mut(id) {
            Some(window) => {
                window.finish_animate(still_animating);
                true
            },
            None => false,
        }
    }

    /// Decides what is done about rendering the window `id` at the end of
    /// an animated cycle.
    pub fn schedule_render(&mut self, id: u64, skipped_frame: bool, throttled: bool) -> (schedule:
        Option<RenderSchedule>)
        ensures
            schedule == (if old(self)@.has_route(id) {
                Some(RouteWindowView::<B>::render_schedule(skipped_frame, throttled))
            } else {
                None
            }),
            final(self)@ =~= old(self)@.with_route(
                id,
                old(self)@.route(id).render_scheduled(skipped_frame, throttled),
            ),
    {
        match self.window_wrapper.route_mut(id) {
            Some(window) => Some(window.schedule_render(skipped_frame, throttled)),
            None => None,
        }
    }

    /// Records that a render of the window `id` has completed at `now`.
    /// Returns whether there is such a window.
    pub fn render(&mut self, id: u64, now: u64) -> (found: bool)
        ensures
            found == old(self)@.has_route(id),
            final(self)@ =~= old(self)@.with_route(id, old(self)@.route(id).rendered(now)),
    {
        match self.window_wrapper.route_mut(id) {
            Some(window) => {
                window.render(now);
                true
            },
            None => false,
        }
    }

    /// Hands out the batches that arrived for the window `id` while a
    /// render was pending, in the order of their arrival.
    pub fn process_buffered_draw_commands(&mut self, id: u64) -> (batches: Option<Vec<B>>)
        ensures
            batches is Some <==> old(self)@.has_route(id),
            batches matches Some(list) ==> list@ == old(self)@.route(id).pending_draw_commands,
            final(self)@ =~= old(self)@.with_route(id, old(self)@.route(id).buffer_flushed()),
    {
        match self.window_wrapper.route_mut(id) {
            Some(window) => Some(window.process_buffered_draw_commands()),
            None => None,
        }
    }

    /// Merges the renderer's readiness `res` into the decision of the
    /// window `id` and decides whether the cycle animates.
    pub fn prepare_and_animate(&mut self, id: u64, res: ShouldRender, now: u64, dt_target: u64)
        -> (plan: Option<CyclePlan>)
        ensures
            plan == (if old(self)@.has_route(id) {
                Some(old(self)@.route(id).cycle_plan(res, now, old(self)@.idle, dt_target))
            } else {
                None
            }),
            final(self)@ =~= old(self)@.with_route(
                id,
                old(self)@.route(id).cycled(res, now, old(self)@.idle, dt_target),
            ),
    {
        let idle: bool = self.idle;
        match self.window_wrapper.route_mut(id) {
            Some(window) => Some(window.prepare_and_animate(res, now, idle, dt_target)),
            None => None,
        }
    }

    /// Takes in the platform's request to redraw the window `id`. Returns
    /// whether a committed render waits, which is then to be executed.
    pub fn redraw_requested(&mut self, id: u64) -> (render_now: Option<bool>)
        ensures
            render_now == (if old(self)@.has_route(id) {
                Some(old(self)@.route(id).pending_render)
            } else {
                None
            }),
            final(self)@ =~= old(self)@.with_route(id, old(self)@.route(id).redraw_requested()),
    {
        match self.window_wrapper.route_mut(id) {
            Some(window) => Some(window.redraw_requested()),
            None => None,
        }
    }

    /// Whether a window is to be created at this wake-up of the event loop.
    pub fn new_events(&self, cause: StartCause) -> (create: bool)
        ensures
            create == creates_window(cause),
    {
        match cause {
            StartCause::Init => true,
            StartCause::CreateWindow => true,
            _ => false,
        }
    }

    /// Takes in an event of the window `id`: the scheduler's own share
    /// first, a redraw request or a change of focus, then what the window
    /// wrapper makes of it. A known event on a window that has reached its
    /// first frame makes the next frame due at once.
    pub fn window_event(&mut self, id: u64, event: WindowEvent) -> (plan: Option<WindowEventPlan>)
        ensures
            plan is Some <==> old(self)@.has_route(id),
            plan matches Some(p) ==> p.render_now == old(self)@.window_event_renders_now(id, event)
                && p.effects@ == old(self)@.window_event_effects(id, event),
            final(self)@ =~= (if old(self)@.has_route(id) {
                old(self)@.window_event(id, event)
            } else {
                old(self)@
            }),
    {
        let mut render_now: bool = false;
        match self.window_wrapper.route_mut(id) {
            Some(window) => {
                match event {
                    WindowEvent::RedrawRequested => {
                        render_now = window.redraw_requested();
                    },
                    WindowEvent::Focused(focused) => {
                        window.focus_changed(focused);
                    },
                    _ => {},
                }
            },
            None => {
                return None;
            },
        }
        match self.window_wrapper.handle_window_event(event, id) {
            Some(outcome) => {
                if outcome.should_render {
                    match self.window_wrapper.route_mut(id) {
                        Some(window) => {
                            window.should_render = ShouldRender::Immediately;
                        },
                        None => {},
                    }
                }
                Some(WindowEventPlan { render_now, effects: outcome.effects })
            },
            None => None,
        }
    }

    /// Takes in an application event for the window `id` and says what is
    /// to be done about it.
    pub fn user_event(&mut self, id: u64, event: UserEvent<B>) -> (outcome: Option<
        UserEventOutcome<B>,
    >)
        ensures
            outcome == (if old(self)@.has_route(id) {
                Some(old(self)@.route(id).user_event_outcome(event))
            } else {
                None
            }),
            final(self)@ =~= old(self)@.with_route(id, old(self)@.route(id).user_event(event)),
    {
        match self.window_wrapper.route_mut(id) {
            Some(window) => Some(window.user_event(event)),
            None => None,
        }
    }

    /// Takes in that the application was resumed: the window `id` may be
    /// created anew. Returns whether there is such a window.
    pub fn resumed(&mut self, id: u64) -> (found: bool)
        ensures
            found == old(self)@.has_route(id),
            final(self)@ =~= old(self)@.with_route(
                id,
                RouteWindowView { create_window_allowed: true, ..old(self)@.route(id) },
            ),
    {
        match self.window_wrapper.route_mut(id) {
            Some(window) => {
                window.create_window_allowed = true;
                true
            },
            None => false,
        }
    }

    /// Ends the application's scheduling.
    pub fn exiting(&mut self)
        ensures
            final(self)@ =~= old(self)@,
    {
        self.window_wrapper.exit();
    }
}

/// A step on one window leaves every other window, and what the windows
/// share, as they are.
pub proof fn lemma_step_touches_one_window<B>(
    app: ApplicationView<B>,
    id: u64,
    other: u64,
    window: RouteWindowView<B>,
)
    requires
        other != id,
    ensures
        app.with_route(id, window).has_route(other) == app.has_route(other),
        app.with_route(id, window).route(other) == app.route(other),
        app.with_route(id, window).has_route(id) == app.has_route(id),
        app.has_route(id) ==> app.with_route(id, window).route(id) == window,
        app.with_route(id, window).idle == app.idle,
        app.with_route(id, window).window_wrapper.settings == app.window_wrapper.settings,
        app.with_route(id, window).window_wrapper.window_padding
            == app.window_wrapper.window_padding,
        app.with_route(id, window).window_wrapper.ime_enabled == app.window_wrapper.ime_enabled,
        app.with_route(id, window).window_wrapper.ime_area == app.window_wrapper.ime_area,
{
}

/// What a window event comes to for the scheduler: gaining or losing the
/// focus is recorded; a known event on a window that has reached its first
/// frame makes the next frame due at once, and so does a redraw request that
/// finds no committed render; any other event leaves the decision alone. The
/// timing, the animation clock and a committed render are not touched, and
/// neither is any other window.
pub proof fn lemma_window_event_summary<B>(
    app: ApplicationView<B>,
    id: u64,
    other: u64,
    event: WindowEvent,
)
    requires
        app.has_route(id),
    ensures
        app.window_event(id, event).has_route(id),
        app.window_event(id, event).route(id).focused == (match event {
            WindowEvent::Focused(focused) => app.route(id).focused.after_focus_event(focused),
            _ => app.route(id).focused,
        }),
        app.window_event(id, event).route(id).should_render == (if (app.route(id).ui_state.rank()
            >= UIState::FirstFrame.rank() && WinitWindowWrapperView::<B>::window_event_known(event))
            || (event is RedrawRequested && !app.route(id).pending_render) {
            ShouldRender::Immediately
        } else {
            app.route(id).should_render
        }),
        app.window_event(id, event).route(id).pending_render == app.route(id).pending_render,
        app.window_event(id, event).route(id).clock == app.route(id).clock,
        app.window_event(id, event).route(id).previous_frame_start == app.route(
            id,
        ).previous_frame_start,
        app.window_event(id, event).route(id).pending_draw_commands == app.route(
            id,
        ).pending_draw_commands,
        other != id ==> app.window_event(id, event).has_route(other) == app.has_route(other)
            && app.window_event(id, event).route(other) == app.route(other),
{
}

} // verus!
