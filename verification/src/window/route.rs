//! The render state of one window and the steps that change it.
//!
//! A cycle runs as follows. [`RouteWindow::should_prepare`] says whether
//! the cycle runs at all. The caller then prepares the frame and hands the
//! renderer's readiness to [`RouteWindow::prepare_and_animate`], which
//! decides whether to animate and, if so, advances the animation clock. The
//! caller advances the content in the sub-steps it is given and reports back
//! through [`RouteWindow::finish_animate`];
//! [`RouteWindow::schedule_render`] then says whether to render now, to ask
//! the platform for a redraw, or to do nothing. A render is
//! [`RouteWindow::draw_frame`], the drawing itself, and
//! [`RouteWindow::render`].

use crate::buffer::DrawCommandBuffer;
use crate::clock::AnimationClock;
use crate::clock::SubSteps;
use crate::clock::sub_steps_for;
use crate::decision::ShouldRender;
use crate::time::elapsed_between;
use crate::time::floored_rate;
use crate::time::frame_period;
use crate::time::instant_after;
use crate::window::application::FocusedState;
use crate::window::events::DrawCommandResult;
use crate::window::events::UserEvent;
use crate::window::settings::GridLimits;
use crate::window::settings::WindowSettings;
use crate::window::units::GridSize;
use crate::window::units::PixelSize;
use vstd::prelude::*;

verus! {

/// How far the window has come on its way to being shown.
#[derive(Clone, Copy, Debug, PartialEq, Eq, Structural)]
pub enum UIState {
    /// The host is still starting up.
    Initing,
    WaitingForWindowCreate,
    /// The next frame is the first one to be painted.
    FirstFrame,
    /// The window is visible.
    Showing,
}

impl UIState {
    /// The position of the state in the order in which the states are passed
    /// through.
    pub open spec fn rank(self) -> int {
        match self {
            UIState::Initing => 0,
            UIState::WaitingForWindowCreate => 1,
            UIState::FirstFrame => 2,
            UIState::Showing => 3,
        }
    }

    /// Whether the window has reached its first frame.
    pub fn has_reached_first_frame(&self) -> (reached: bool)
        ensures
            reached == (self.rank() >= UIState::FirstFrame.rank()),
    {
        match self {
            UIState::Initing => false,
            UIState::WaitingForWindowCreate => false,
            UIState::FirstFrame => true,
            UIState::Showing => true,
        }
    }
}

/// What to do about rendering at the end of a cycle.
#[derive(Clone, Copy, Debug, PartialEq, Eq, Structural)]
pub enum RenderSchedule {
    /// The frame slot was missed: do not render in this cycle.
    Skip,
    /// Ask the platform for a redraw and render when it calls back.
    RequestRedraw,
    /// Render now.
    RenderNow,
}

/// What the drawing of one frame has to do.
#[derive(Clone, Copy, Debug, PartialEq, Eq, Structural)]
pub struct DrawPlan {
    /// Lay the text out anew before drawing, because the font has changed.
    pub relayout: bool,
    /// The time since the frame before, to be handed to the draw pass.
    pub dt: u64,
    /// Make the window visible once the frame is presented: it is the
    /// first one.
    pub show_window: bool,
}

/// What a cycle has decided after preparing the frame.
#[derive(Clone, Copy, Debug, PartialEq, Eq, Structural)]
pub enum CyclePlan {
    /// Advance the content by the given sub-steps, report through
    /// `finish_animate`, then schedule the render with `skipped_frame`.
    Animate { steps: SubSteps, skipped_frame: bool },
    /// Nothing moves and nothing asks for a frame.
    Idle,
}

/// What is to be done about an application event.
#[derive(Debug)]
pub enum UserEventOutcome<B> {
    /// Save the window size and leave the event loop.
    Exit,
    /// A committed render waits: render, then apply the buffered batches.
    Render,
    /// A redraw was asked for while no render waited; the next cycle renders.
    RedrawNoted,
    /// The batch was queued behind the committed render.
    Buffered,
    /// The event is to be handled now.
    Handle(UserEvent<B>),
}

/// The render state of one window. `B` is a batch of content updates.
pub struct RouteWindow<B> {
    /// When the last frame was completed.
    pub previous_frame_start: u64,
    /// The time between the last two completed frames.
    pub last_dt: u64,
    pub should_render: ShouldRender,
    /// The number of renders since the window was last idle.
    pub num_consecutive_rendered: u32,
    pub focused: FocusedState,
    /// A render is committed and waits for the platform's redraw callback.
    pub pending_render: bool,
    /// The batches that arrived while a render was pending.
    pub pending_draw_commands: DrawCommandBuffer<B>,
    pub clock: AnimationClock,
    pub create_window_allowed: bool,
    pub title: String,
    pub font_changed_last_frame: bool,
    pub saved_inner_size: PixelSize,
    pub saved_grid_size: Option<GridSize>,
    pub requested_columns: Option<u32>,
    pub requested_lines: Option<u32>,
    pub ui_state: UIState,
    pub is_minimized: bool,
    pub mouse_enabled: bool,
}

/// The render state of one window as a mathematical value.
#[verifier::ext_equal]
pub struct RouteWindowView<B> {
    pub previous_frame_start: u64,
    pub last_dt: u64,
    pub should_render: ShouldRender,
    pub num_consecutive_rendered: u32,
    pub focused: FocusedState,
    pub pending_render: bool,
    pub pending_draw_commands: Seq<B>,
    pub clock: AnimationClock,
    pub create_window_allowed: bool,
    pub title: Seq<char>,
    pub font_changed_last_frame: bool,
    pub saved_inner_size: PixelSize,
    pub saved_grid_size: Option<GridSize>,
    pub requested_columns: Option<u32>,
    pub requested_lines: Option<u32>,
    pub ui_state: UIState,
    pub is_minimized: bool,
    pub mouse_enabled: bool,
}

impl<B> View for RouteWindow<B> {
    type V = RouteWindowView<B>;

    open spec fn view(&self) -> RouteWindowView<B> {
        RouteWindowView {
            previous_frame_start: self.previous_frame_start,
            last_dt: self.last_dt,
            should_render: self.should_render,
            num_consecutive_rendered: self.num_consecutive_rendered,
            focused: self.focused,
            pending_render: self.pending_render,
            pending_draw_commands: self.pending_draw_commands@,
            clock: self.clock,
            create_window_allowed: self.create_window_allowed,
            title: self.title@,
            font_changed_last_frame: self.font_changed_last_frame,
            saved_inner_size: self.saved_inner_size,
            saved_grid_size: self.saved_grid_size,
            requested_columns: self.requested_columns,
            requested_lines: self.requested_lines,
            ui_state: self.ui_state,
            is_minimized: self.is_minimized,
            mouse_enabled: self.mouse_enabled,
        }
    }
}

impl<B> RouteWindowView<B> {
    /// The state of a window created at `now` with the given inner size and
    /// title: nothing rendered, nothing pending, unfocused, starting up.
    pub open spec fn initial(now: u64, inner_size: PixelSize, title: Seq<char>) -> Self {
        RouteWindowView {
            previous_frame_start: now,
            last_dt: 0,
            should_render: ShouldRender::Wait,
            num_consecutive_rendered: 0,
            focused: FocusedState::Unfocused,
            pending_render: false,
            pending_draw_commands: Seq::empty(),
            clock: AnimationClock { animation_start: now, animation_time: 0 },
            create_window_allowed: true,
            title,
            font_changed_last_frame: false,
            saved_inner_size: inner_size,
            saved_grid_size: None,
            requested_columns: None,
            requested_lines: None,
            ui_state: UIState::Initing,
            is_minimized: false,
            mouse_enabled: true,
        }
    }

    /// The refresh rate that applies: the active one while the window is
    /// focused or has not been painted since it lost the focus, the idle one
    /// otherwise; never less than one frame per second.
    pub open spec fn refresh_rate(self, settings: WindowSettings) -> u64 {
        floored_rate(
            if self.focused.uses_active_rate() {
                settings.refresh_rate
            } else {
                settings.refresh_rate_idle
            },
        )
    }

    /// When the next frame is due by the refresh rate alone.
    pub open spec fn frame_deadline(self, settings: WindowSettings) -> u64 {
        instant_after(self.previous_frame_start, frame_period(self.refresh_rate(settings)))
    }

    /// When the event loop has to wake up next. While a render is pending
    /// only the instant up to which the animation is simulated counts.
    /// Otherwise the decision is held against the frame deadline.
    pub open spec fn event_deadline(self, now: u64, settings: WindowSettings) -> u64 {
        if self.pending_render {
            self.clock.front()
        } else {
            match self.should_render {
                ShouldRender::Immediately => now,
                ShouldRender::Deadline(deadline) => if deadline <= self.frame_deadline(settings) {
                    deadline
                } else {
                    self.frame_deadline(settings)
                },
                ShouldRender::Wait => self.frame_deadline(settings),
            }
        }
    }

    /// Whether a committed render has missed its slot: the platform has not
    /// called back by the time up to which the animation is simulated.
    pub open spec fn skipped_frame(self, now: u64) -> bool {
        self.pending_render && now > self.clock.front()
    }

    /// Whether a cycle at `now` prepares a frame: not while a committed
    /// render still has time to arrive.
    pub open spec fn should_prepare(self, now: u64) -> bool {
        !self.pending_render || self.skipped_frame(now)
    }

    /// Whether the cycle animates.
    pub open spec fn should_animate(self, idle: bool, skipped_frame: bool) -> bool {
        self.should_render is Immediately || !idle || skipped_frame
    }

    /// The state with `decision` merged into the render decision.
    pub open spec fn with_decision(self, decision: ShouldRender) -> Self {
        RouteWindowView { should_render: self.should_render.merged(decision), ..self }
    }

    /// The state at the start of an animated cycle: the decision is taken
    /// back to `Wait`, and if nothing was rendered since the window was last
    /// idle the animation starts anew at `now`.
    pub open spec fn animation_period_reset(self, now: u64) -> Self {
        RouteWindowView {
            should_render: ShouldRender::Wait,
            clock: if self.num_consecutive_rendered == 0 {
                AnimationClock { animation_start: now, animation_time: 0 }
            } else {
                self.clock
            },
            ..self
        }
    }

    /// The state after one step of the animation clock.
    pub open spec fn animated(self, now: u64, dt_target: u64) -> Self {
        RouteWindowView { clock: self.clock.advanced(now, dt_target), ..self }
    }

    /// The state after the sub-steps have reported whether the content still
    /// moves: if any does, the next frame is due at once.
    pub open spec fn animation_finished(self, still_animating: Seq<bool>) -> Self {
        RouteWindowView {
            should_render: if still_animating.contains(true) {
                ShouldRender::Immediately
            } else {
                self.should_render
            },
            ..self
        }
    }

    /// What is done about rendering at the end of an animated cycle.
    pub open spec fn render_schedule(skipped_frame: bool, throttled: bool) -> RenderSchedule {
        if skipped_frame {
            RenderSchedule::Skip
        } else if throttled {
            RenderSchedule::RequestRedraw
        } else {
            RenderSchedule::RenderNow
        }
    }

    /// The state after the render was scheduled: asking the platform for a
    /// redraw commits the render.
    pub open spec fn render_scheduled(self, skipped_frame: bool, throttled: bool) -> Self {
        RouteWindowView {
            pending_render: self.pending_render || (!skipped_frame && throttled),
            ..self
        }
    }

    /// What the drawing of the next frame has to do.
    pub open spec fn draw_plan(self) -> DrawPlan {
        DrawPlan {
            relayout: self.font_changed_last_frame,
            dt: self.last_dt,
            show_window: self.ui_state is FirstFrame,
        }
    }

    /// The state once a frame is drawn: the font change is taken in, and a
    /// window that waited for its first frame is shown.
    pub open spec fn drawn(self) -> Self {
        RouteWindowView {
            font_changed_last_frame: false,
            ui_state: if self.ui_state is FirstFrame {
                UIState::Showing
            } else {
                self.ui_state
            },
            ..self
        }
    }

    /// The state once a render has completed at `now`.
    pub open spec fn rendered(self, now: u64) -> Self {
        RouteWindowView {
            pending_render: false,
            focused: self.focused.after_render(),
            num_consecutive_rendered: if self.num_consecutive_rendered < u32::MAX {
                (self.num_consecutive_rendered + 1) as u32
            } else {
                self.num_consecutive_rendered
            },
            last_dt: elapsed_between(self.previous_frame_start, now),
            previous_frame_start: now,
            ..self
        }
    }

    /// The state after a cycle at `now` that did not animate.
    pub open spec fn idled(self, now: u64) -> Self {
        RouteWindowView {
            num_consecutive_rendered: 0,
            last_dt: elapsed_between(self.previous_frame_start, now),
            previous_frame_start: now,
            ..self
        }
    }

    /// The state in which the cycle stands once the renderer's readiness
    /// `res` is merged in, before anything is animated.
    pub open spec fn cycle_animates(
        self,
        res: ShouldRender,
        now: u64,
        idle: bool,
    ) -> bool {
        let merged = self.with_decision(res);
        merged.should_animate(idle, merged.skipped_frame(now))
    }

    /// What the cycle decides once the renderer's readiness `res` is merged
    /// in.
    pub open spec fn cycle_plan(
        self,
        res: ShouldRender,
        now: u64,
        idle: bool,
        dt_target: u64,
    ) -> CyclePlan {
        let merged = self.with_decision(res);
        if self.cycle_animates(res, now, idle) {
            CyclePlan::Animate {
                steps: sub_steps_for(
                    merged.animation_period_reset(now).clock.step_dt(now, dt_target),
                ),
                skipped_frame: merged.skipped_frame(now),
            }
        } else {
            CyclePlan::Idle
        }
    }

    /// The state after that decision.
    pub open spec fn cycled(self, res: ShouldRender, now: u64, idle: bool, dt_target: u64) -> Self {
        let merged = self.with_decision(res);
        if self.cycle_animates(res, now, idle) {
            merged.animation_period_reset(now).animated(now, dt_target)
        } else {
            merged.idled(now)
        }
    }

    /// The state after the platform has asked for a redraw: without a
    /// committed render the next cycle renders at once.
    pub open spec fn redraw_requested(self) -> Self {
        if self.pending_render {
            self
        } else {
            RouteWindowView { should_render: ShouldRender::Immediately, ..self }
        }
    }

    /// The state after the buffered batches were handed out: if there were
    /// any, the next frame is due at once.
    pub open spec fn buffer_flushed(self) -> Self {
        RouteWindowView {
            pending_draw_commands: Seq::empty(),
            should_render: if self.pending_draw_commands.len() > 0 {
                ShouldRender::Immediately
            } else {
                self.should_render
            },
            ..self
        }
    }

    /// The state after the focus was gained or lost.
    pub open spec fn focus_changed(self, focused: bool) -> Self {
        RouteWindowView { focused: self.focused.after_focus_event(focused), ..self }
    }

    /// The state after an application event has arrived.
    pub open spec fn user_event(self, event: UserEvent<B>) -> Self {
        match event {
            UserEvent::Exit => self,
            UserEvent::RedrawRequested => self.redraw_requested(),
            UserEvent::DrawCommandBatch(batch) => if self.pending_render {
                RouteWindowView {
                    pending_draw_commands: self.pending_draw_commands.push(batch),
                    ..self
                }
            } else {
                RouteWindowView { should_render: ShouldRender::Immediately, ..self }
            },
            _ => RouteWindowView { should_render: ShouldRender::Immediately, ..self },
        }
    }

    /// What is to be done about an application event.
    pub open spec fn user_event_outcome(self, event: UserEvent<B>) -> UserEventOutcome<B> {
        match event {
            UserEvent::Exit => UserEventOutcome::Exit,
            UserEvent::RedrawRequested => if self.pending_render {
                UserEventOutcome::Render
            } else {
                UserEventOutcome::RedrawNoted
            },
            UserEvent::DrawCommandBatch(batch) => if self.pending_render {
                UserEventOutcome::Buffered
            } else {
                UserEventOutcome::Handle(event)
            },
            _ => UserEventOutcome::Handle(event),
        }
    }

    /// The grid size that a resize request asks for: the requested columns
    /// and lines, each replaced by the recorded size or else by the default
    /// where it was not requested, held to the limits.
    pub open spec fn requested_grid_size(self, limits: GridLimits) -> GridSize {
        let fallback = match self.saved_grid_size {
            Some(saved) => saved,
            None => limits.default,
        };
        (GridSize {
            width: match self.requested_columns {
                Some(columns) => columns,
                None => fallback.width,
            },
            height: match self.requested_lines {
                Some(lines) => lines,
                None => fallback.height,
            },
        }).clamped(limits.min, limits.max)
    }

    /// Whether columns or lines were requested.
    pub open spec fn resize_requested(self) -> bool {
        self.requested_columns is Some || self.requested_lines is Some
    }

    /// The state after the resize request was taken up.
    pub open spec fn resize_request_taken(self) -> Self {
        RouteWindowView { requested_columns: None, requested_lines: None, ..self }
    }

    /// The grid size that the host is told after the grid was measured: the
    /// measured grid raised to `min`, unless that is the recorded one.
    pub open spec fn grid_resize(self, measured: GridSize, min: GridSize) -> Option<GridSize> {
        if self.saved_grid_size == Some(measured.at_least(min)) {
            None
        } else {
            Some(measured.at_least(min))
        }
    }

    /// The state after the grid was measured as `grid_size`.
    pub open spec fn grid_size_recorded(self, grid_size: GridSize) -> Self {
        RouteWindowView { saved_grid_size: Some(grid_size), ..self }
    }

    /// The state after the content renderer has taken in a batch.
    pub open spec fn draw_commands_handled(self, result: DrawCommandResult) -> Self {
        RouteWindowView {
            font_changed_last_frame: self.font_changed_last_frame || result.font_changed,
            ui_state: if self.ui_state is Initing && result.should_show {
                UIState::WaitingForWindowCreate
            } else {
                self.ui_state
            },
            ..self
        }
    }
}

impl<B> RouteWindow<B> {
    /// The state of a window created at `now`.
    pub fn new(now: u64, inner_size: PixelSize, title: String) -> (window: RouteWindow<B>)
        ensures
            window@ == RouteWindowView::<B>::initial(now, inner_size, title@),
    {
        RouteWindow {
            previous_frame_start: now,
            last_dt: 0,
            should_render: ShouldRender::Wait,
            num_consecutive_rendered: 0,
            focused: FocusedState::Unfocused,
            pending_render: false,
            pending_draw_commands: DrawCommandBuffer::new(),
            clock: AnimationClock::starting_at(now),
            create_window_allowed: true,
            title,
            font_changed_last_frame: false,
            saved_inner_size: inner_size,
            saved_grid_size: None,
            requested_columns: None,
            requested_lines: None,
            ui_state: UIState::Initing,
            is_minimized: false,
            mouse_enabled: true,
        }
    }

    /// The refresh rate that applies to the window, in frames per second.
    pub fn get_refresh_rate(&self, settings: &WindowSettings) -> (rate: u64)
        ensures
            rate == self@.refresh_rate(*settings),
            rate >= 1,
    {
        let rate: u64 = match self.focused {
            FocusedState::Focused => settings.refresh_rate,
            FocusedState::UnfocusedNotDrawn => settings.refresh_rate,
            FocusedState::Unfocused => settings.refresh_rate_idle,
        };
        if rate < 1 {
            1
        } else {
            rate
        }
    }

    /// When the next frame is due by the refresh rate alone.
    pub fn get_frame_deadline(&self, settings: &WindowSettings) -> (deadline: u64)
        ensures
            deadline == self@.frame_deadline(*settings),
    {
        let period: u64 = crate::time::frame_period_of(self.get_refresh_rate(settings));
        crate::time::add_duration(self.previous_frame_start, period)
    }

    /// When the event loop has to wake up next.
    pub fn get_event_deadline(&self, now: u64, settings: &WindowSettings) -> (deadline: u64)
        ensures
            deadline == self@.event_deadline(now, *settings),
    {
        if self.pending_render {
            return self.clock.deadline();
        }
        match self.should_render {
            ShouldRender::Immediately => now,
            ShouldRender::Deadline(old_deadline) => {
                let frame_deadline: u64 = self.get_frame_deadline(settings);
                if old_deadline <= frame_deadline {
                    old_deadline
                } else {
                    frame_deadline
                }
            },
            ShouldRender::Wait => self.get_frame_deadline(settings),
        }
    }

    /// Whether a committed render has missed its slot by `now`.
    pub fn skipped_frame(&self, now: u64) -> (skipped: bool)
        ensures
            skipped == self@.skipped_frame(now),
    {
        self.pending_render && now > self.clock.deadline()
    }

    /// Whether a cycle at `now` prepares a frame.
    pub fn should_prepare(&self, now: u64) -> (prepare: bool)
        ensures
            prepare == self@.should_prepare(now),
    {
        !self.pending_render || self.skipped_frame(now)
    }

    /// Whether the cycle animates: when a frame is due at once, when the
    /// scheduler does not save power while idle, or when a frame was skipped.
    pub fn should_animate(&self, idle: bool, skipped_frame: bool) -> (animate: bool)
        ensures
            animate == self@.should_animate(idle, skipped_frame),
    {
        let immediately: bool = match self.should_render {
            ShouldRender::Immediately => true,
            _ => false,
        };
        immediately || !idle || skipped_frame
    }

    /// Starts an animated cycle at `now`.
    pub fn reset_animation_period(&mut self, now: u64)
        ensures
            final(self)@ == old(self)@.animation_period_reset(now),
    {
        self.should_render = ShouldRender::Wait;
        if self.num_consecutive_rendered == 0 {
            self.clock = AnimationClock::starting_at(now);
        }
    }

    /// Advances the animation clock by one step taken at `now`, with a
    /// nominal frame period of `dt_target`, and returns the sub-steps in which
    /// the content is to be advanced.
    pub fn animate(&mut self, now: u64, dt_target: u64) -> (steps: SubSteps)
        ensures
            final(self)@ == old(self)@.animated(now, dt_target),
            steps == sub_steps_for(old(self)@.clock.step_dt(now, dt_target)),
    {
        self.clock.advance(now, dt_target)
    }

    /// Takes in what the sub-steps reported: `still_animating` holds, for
    /// each sub-step in turn, whether the content still moves.
    pub fn finish_animate(&mut self, still_animating: &Vec<bool>)
        ensures
            final(self)@ == old(self)@.animation_finished(still_animating@),
    {
        let mut any: bool = false;
        let mut i: usize = 0;
        while i < still_animating.len()
            invariant
                i <= still_animating.len(),
                any == still_animating@.subrange(0, i as int).contains(true),
            decreases still_animating.len() - i,
        {
            let ghost before = still_animating@.subrange(0, i as int);
            let ghost after = still_animating@.subrange(0, i + 1);
            proof {
                assert(after =~= before.push(still_animating@[i as int]));
                if before.contains(true) {
                    let k = choose|k: int| 0 <= k < before.len() && before[k] == true;
                    assert(after[k] == true);
                }
                if still_animating@[i as int] {
                    assert(after[i as int] == true);
                }
            }
            if still_animating[i] {
                any = true;
            }
            i = i + 1;
        }
        proof {
            assert(still_animating@.subrange(0, i as int) =~= still_animating@);
        }
        if any {
            self.should_render = ShouldRender::Immediately;
        }
    }

    /// Decides what is done about rendering at the end of an animated cycle.
    /// `throttled` says whether the platform executes redraws only on its own
    /// callback.
    pub fn schedule_render(&mut self, skipped_frame: bool, throttled: bool) -> (schedule:
        RenderSchedule)
        ensures
            schedule == RouteWindowView::<B>::render_schedule(skipped_frame, throttled),
            final(self)@ == old(self)@.render_scheduled(skipped_frame, throttled),
    {
        if skipped_frame {
            RenderSchedule::Skip
        } else if throttled {
            self.pending_render = true;
            RenderSchedule::RequestRedraw
        } else {
            RenderSchedule::RenderNow
        }
    }

    /// Says what the drawing of the next frame has to do, and records that
    /// it is done.
    pub fn draw_frame(&mut self) -> (plan: DrawPlan)
        ensures
            plan == old(self)@.draw_plan(),
            final(self)@ == old(self)@.drawn(),
    {
        let plan = DrawPlan {
            relayout: self.font_changed_last_frame,
            dt: self.last_dt,
            show_window: match self.ui_state {
                UIState::FirstFrame => true,
                _ => false,
            },
        };
        self.font_changed_last_frame = false;
        if plan.show_window {
            self.ui_state = UIState::Showing;
        }
        plan
    }

    /// Records that a render has completed at `now`.
    pub fn render(&mut self, now: u64)
        ensures
            final(self)@ == old(self)@.rendered(now),
    {
        self.pending_render = false;
        match self.focused {
            FocusedState::UnfocusedNotDrawn => {
                self.focused = FocusedState::Unfocused;
            },
            _ => {},
        }
        if self.num_consecutive_rendered < u32::MAX {
            self.num_consecutive_rendered = self.num_consecutive_rendered + 1;
        }
        self.last_dt = crate::time::duration_since(now, self.previous_frame_start);
        self.previous_frame_start = now;
    }

    /// Merges the renderer's readiness `res` into the decision and decides
    /// whether the cycle animates. If it does, the animation clock is advanced
    /// and the sub-steps are returned; if not, the frame timing is brought up
    /// to `now` so that the idle time does not count as a frame.
    pub fn prepare_and_animate(&mut self, res: ShouldRender, now: u64, idle: bool, dt_target: u64)
        -> (plan: CyclePlan)
        ensures
            plan == old(self)@.cycle_plan(res, now, idle, dt_target),
            final(self)@ == old(self)@.cycled(res, now, idle, dt_target),
    {
        self.should_render.update(res);
        let skipped_frame: bool = self.skipped_frame(now);
        if self.should_animate(idle, skipped_frame) {
            self.reset_animation_period(now);
            let steps = self.animate(now, dt_target);
            CyclePlan::Animate { steps, skipped_frame }
        } else {
            self.num_consecutive_rendered = 0;
            self.last_dt = crate::time::duration_since(now, self.previous_frame_start);
            self.previous_frame_start = now;
            CyclePlan::Idle
        }
    }

    /// Takes in the platform's request for a redraw. Returns whether a
    /// committed render waits, which is then to be executed and followed by
    /// [`RouteWindow::process_buffered_draw_commands`].
    pub fn redraw_requested(&mut self) -> (render_now: bool)
        ensures
            render_now == old(self)@.pending_render,
            final(self)@ == old(self)@.redraw_requested(),
    {
        if self.pending_render {
            true
        } else {
            self.should_render = ShouldRender::Immediately;
            false
        }
    }

    /// Hands out the batches that arrived while a render was pending, in the
    /// order of their arrival, to be applied to the content renderer.
    pub fn process_buffered_draw_commands(&mut self) -> (batches: Vec<B>)
        ensures
            batches@ == old(self)@.pending_draw_commands,
            final(self)@ == old(self)@.buffer_flushed(),
    {
        let batches = self.pending_draw_commands.drain();
        if batches.len() > 0 {
            self.should_render = ShouldRender::Immediately;
        }
        batches
    }

    /// Records that the window has gained or lost the focus.
    pub fn focus_changed(&mut self, focused: bool)
        ensures
            final(self)@ == old(self)@.focus_changed(focused),
    {
        self.focused = if focused {
            FocusedState::Focused
        } else {
            FocusedState::UnfocusedNotDrawn
        };
    }

    /// Takes in an application event and says what is to be done about it.
    /// A batch that arrives while a render is pending is queued; any other
    /// event but an exit or a redraw request makes the next frame due at once.
    pub fn user_event(&mut self, event: UserEvent<B>) -> (outcome: UserEventOutcome<B>)
        ensures
            outcome == old(self)@.user_event_outcome(event),
            final(self)@ == old(self)@.user_event(event),
    {
        match event {
            UserEvent::Exit => UserEventOutcome::Exit,
            UserEvent::RedrawRequested => {
                if self.redraw_requested() {
                    UserEventOutcome::Render
                } else {
                    UserEventOutcome::RedrawNoted
                }
            },
            UserEvent::DrawCommandBatch(batch) => {
                if self.pending_render {
                    self.pending_draw_commands.push(batch);
                    UserEventOutcome::Buffered
                } else {
                    self.should_render = ShouldRender::Immediately;
                    UserEventOutcome::Handle(UserEvent::DrawCommandBatch(batch))
                }
            },
            other => {
                self.should_render = ShouldRender::Immediately;
                UserEventOutcome::Handle(other)
            },
        }
    }

    /// Takes in what the content renderer reported about a batch.
    pub fn handle_draw_commands(&mut self, result: DrawCommandResult)
        ensures
            final(self)@ == old(self)@.draw_commands_handled(result),
    {
        self.font_changed_last_frame = self.font_changed_last_frame || result.font_changed;
        let initing: bool = match self.ui_state {
            UIState::Initing => true,
            _ => false,
        };
        if initing && result.should_show {
            self.ui_state = UIState::WaitingForWindowCreate;
        }
    }

    /// Takes up a request for a number of columns and lines, and returns the
    /// grid size for which the window is to be resized.
    pub fn update_window_size_from_grid(&mut self, limits: &GridLimits) -> (grid_size: GridSize)
        ensures
            grid_size == old(self)@.requested_grid_size(*limits),
            final(self)@ == old(self)@.resize_request_taken(),
    {
        let fallback = match self.saved_grid_size {
            Some(saved) => saved,
            None => limits.default,
        };
        let width: u32 = match self.requested_columns {
            Some(columns) => columns,
            None => fallback.width,
        };
        let height: u32 = match self.requested_lines {
            Some(lines) => lines,
            None => fallback.height,
        };
        self.requested_columns = None;
        self.requested_lines = None;
        (GridSize { width, height }).clamp(limits.min, limits.max)
    }

    /// Records the grid that fits into the window: the grid `measured` from
    /// its size, raised to `min`. Returns the grid size that the host is to
    /// be told, which is that grid if it differs from the recorded one.
    pub fn update_grid_size_from_window(&mut self, measured: GridSize, min: GridSize) -> (resized:
        Option<GridSize>)
        ensures
            resized == old(self)@.grid_resize(measured, min),
            final(self)@ == old(self)@.grid_size_recorded(measured.at_least(min)),
    {
        let grid_size = measured.max(min);
        let unchanged: bool = match self.saved_grid_size {
            Some(saved) => saved == grid_size,
            None => false,
        };
        if unchanged {
            return None;
        }
        self.saved_grid_size = Some(grid_size);
        Some(grid_size)
    }
}

impl<B> RouteWindowView<B> {
    /// The state after the batches of `batches` have arrived one after the
    /// other as application events.
    pub open spec fn batches_arrived(self, batches: Seq<B>) -> Self
        decreases batches.len(),
    {
        if batches.len() == 0 {
            self
        } else {
            self.batches_arrived(batches.drop_last()).user_event(
                UserEvent::DrawCommandBatch(batches.last()),
            )
        }
    }
}

} // verus!
