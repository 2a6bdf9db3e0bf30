use frame_scheduler::clock::AnimationClock;
use frame_scheduler::clock::SubSteps;
use frame_scheduler::decision::ShouldRender;
use frame_scheduler::window::application::Application;
use frame_scheduler::window::application::FocusedState;
use frame_scheduler::window::effects::Effect;
use frame_scheduler::window::events::StartCause;
use frame_scheduler::window::events::UserEvent;
use frame_scheduler::window::events::WindowEvent;
use frame_scheduler::window::route::CyclePlan;
use frame_scheduler::window::route::RenderSchedule;
use frame_scheduler::window::route::UIState;
use frame_scheduler::window::route::UserEventOutcome;
use frame_scheduler::window::settings::ThemeSetting;
use frame_scheduler::window::settings::WindowSettings;
use frame_scheduler::window::settings::WindowSize;
use frame_scheduler::window::units::PixelSize;

const MS: u64 = 1_000_000;
const T0: u64 = 1_000 * MS;
const ID: u64 = 42;
const OTHER: u64 = 43;
const NONE: u64 = 44;

fn settings() -> WindowSettings {
    WindowSettings {
        refresh_rate: 60,
        refresh_rate_idle: 5,
        padding_top: 0,
        padding_left: 0,
        padding_right: 0,
        padding_bottom: 0,
        theme: ThemeSetting::Unset,
        transparent: false,
        window_blurred: false,
        fullscreen: false,
        input_ime: true,
    }
}

fn app(idle: bool) -> Application<&'static str> {
    let mut app = Application::new(idle, WindowSize::Maximized, settings());
    let size = PixelSize { width: 800, height: 600 };
    app.window_wrapper.try_create_window(ID, T0, size, String::from("one"));
    app.window_wrapper.try_create_window(OTHER, T0, size, String::from("two"));
    app
}

#[test]
fn a_new_application_has_no_window() {
    let app: Application<u8> = Application::new(true, WindowSize::Maximized, settings());
    assert!(app.idle);
    assert!(app.window_wrapper.is_empty());
    assert_eq!(app.window_wrapper.settings, settings());
    assert_eq!(app.get_refresh_rate(ID), None);
    assert_eq!(app.get_frame_deadline(ID), None);
    assert_eq!(app.get_event_deadline(ID, T0), None);
    assert_eq!(app.should_prepare(ID, T0), None);
}

#[test]
fn deadlines_are_those_of_the_window_asked_for() {
    let mut app = app(true);
    app.window_wrapper.route_mut(ID).unwrap().focused = FocusedState::Focused;
    assert_eq!(app.get_refresh_rate(ID), Some(60));
    assert_eq!(app.get_refresh_rate(OTHER), Some(5));
    assert_eq!(app.get_refresh_rate(NONE), None);
    assert_eq!(app.get_frame_deadline(ID), Some(T0 + 16_666_666));
    assert_eq!(app.get_frame_deadline(OTHER), Some(T0 + 200 * MS));
    assert_eq!(app.get_event_deadline(ID, T0 + MS), Some(T0 + 16_666_666));
    assert_eq!(app.get_event_deadline(OTHER, T0 + MS), Some(T0 + 200 * MS));
    assert_eq!(app.get_event_deadline(NONE, T0 + MS), None);
}

#[test]
fn the_wake_time_of_a_pending_render_ignores_the_decision() {
    for decision in [ShouldRender::Immediately, ShouldRender::Wait, ShouldRender::Deadline(3)] {
        let mut app = app(true);
        let window = app.window_wrapper.route_mut(ID).unwrap();
        window.pending_render = true;
        window.should_render = decision;
        window.clock = AnimationClock { animation_start: T0, animation_time: 40 * MS };
        assert_eq!(app.get_event_deadline(ID, T0 + 90 * MS), Some(T0 + 40 * MS));
    }
}

#[test]
fn steps_change_only_the_window_they_name() {
    let mut app = app(false);
    assert!(app.reset_animation_period(ID, T0 + 10 * MS));
    assert_eq!(app.animate(ID, T0 + 10 * MS, 16 * MS), Some(SubSteps { num_steps: 2, step: 8 * MS }));
    assert!(app.finish_animate(ID, &vec![false, true]));
    let one = app.window_wrapper.route(ID).unwrap();
    assert_eq!(one.clock, AnimationClock { animation_start: T0 + 10 * MS, animation_time: 16 * MS });
    assert_eq!(one.should_render, ShouldRender::Immediately);
    let two = app.window_wrapper.route(OTHER).unwrap();
    assert_eq!(two.clock, AnimationClock { animation_start: T0, animation_time: 0 });
    assert_eq!(two.should_render, ShouldRender::Wait);
    assert!(!app.reset_animation_period(NONE, T0));
    assert_eq!(app.animate(NONE, T0, 16 * MS), None);
    assert!(!app.finish_animate(NONE, &vec![true]));
}

#[test]
fn a_throttled_render_is_committed_and_executed_on_the_callback() {
    let mut app = app(false);
    let plan = app.prepare_and_animate(ID, ShouldRender::Immediately, T0 + 16 * MS, 16 * MS);
    assert_eq!(
        plan,
        Some(CyclePlan::Animate { steps: SubSteps { num_steps: 2, step: 8 * MS }, skipped_frame: false })
    );
    assert!(app.finish_animate(ID, &vec![false, false]));
    assert_eq!(app.schedule_render(ID, false, true), Some(RenderSchedule::RequestRedraw));
    assert_eq!(app.should_prepare(ID, T0 + 20 * MS), Some(false));
    assert_eq!(app.get_event_deadline(ID, T0 + 20 * MS), Some(T0 + 32 * MS));
    for batch in ["a", "b", "c"] {
        let outcome = app.user_event(ID, UserEvent::DrawCommandBatch(batch));
        assert!(matches!(outcome, Some(UserEventOutcome::Buffered)));
    }
    let plan = app.window_event(ID, WindowEvent::RedrawRequested).unwrap();
    assert!(plan.render_now);
    assert_eq!(plan.effects, vec![]);
    let draw = app.window_wrapper.draw_frame(ID).unwrap();
    assert!(draw.show_window);
    assert!(app.render(ID, T0 + 30 * MS));
    assert_eq!(app.process_buffered_draw_commands(ID), Some(vec!["a", "b", "c"]));
    let window = app.window_wrapper.route(ID).unwrap();
    assert!(!window.pending_render);
    assert_eq!(window.should_render, ShouldRender::Immediately);
    assert_eq!(window.num_consecutive_rendered, 1);
    assert_eq!(window.previous_frame_start, T0 + 30 * MS);
    assert_eq!(window.last_dt, 30 * MS);
    assert_eq!(window.ui_state, UIState::Showing);
    assert_eq!(window.focused, FocusedState::Unfocused);
    assert_eq!(app.process_buffered_draw_commands(ID), Some(vec![]));
    assert_eq!(app.process_buffered_draw_commands(NONE), None);
    assert_eq!(app.get_event_deadline(ID, T0 + 31 * MS), Some(T0 + 31 * MS));
    assert!(app.window_wrapper.route(OTHER).unwrap().pending_draw_commands.is_empty());
}

#[test]
fn an_unthrottled_cycle_renders_at_once() {
    let mut app = app(false);
    app.prepare_and_animate(ID, ShouldRender::Wait, T0 + 16 * MS, 16 * MS);
    assert_eq!(app.schedule_render(ID, false, false), Some(RenderSchedule::RenderNow));
    assert!(!app.window_wrapper.route(ID).unwrap().pending_render);
    assert_eq!(app.schedule_render(NONE, false, false), None);
    assert!(!app.render(NONE, T0));
}

#[test]
fn an_idle_application_does_not_animate_without_cause() {
    let mut app = app(true);
    assert_eq!(
        app.prepare_and_animate(ID, ShouldRender::Wait, T0 + 300 * MS, 16 * MS),
        Some(CyclePlan::Idle)
    );
    assert_eq!(app.window_wrapper.route(ID).unwrap().previous_frame_start, T0 + 300 * MS);
    assert_eq!(app.window_wrapper.route(OTHER).unwrap().previous_frame_start, T0);
    assert_eq!(app.prepare_and_animate(NONE, ShouldRender::Wait, T0, 16 * MS), None);
}

#[test]
fn a_redraw_request_without_pending_render_makes_a_frame_due() {
    let mut app = app(true);
    assert_eq!(app.redraw_requested(ID), Some(false));
    assert_eq!(app.window_wrapper.route(ID).unwrap().should_render, ShouldRender::Immediately);
    app.window_wrapper.route_mut(OTHER).unwrap().pending_render = true;
    assert_eq!(app.redraw_requested(OTHER), Some(true));
    assert_eq!(app.window_wrapper.route(OTHER).unwrap().should_render, ShouldRender::Wait);
    assert_eq!(app.redraw_requested(NONE), None);
}

#[test]
fn a_window_event_notes_focus_and_makes_a_frame_due() {
    let mut app = app(true);
    let plan = app.window_event(ID, WindowEvent::Focused(true)).unwrap();
    assert!(!plan.render_now);
    assert_eq!(plan.effects, vec![Effect::SendFocusGained]);
    let window = app.window_wrapper.route(ID).unwrap();
    assert_eq!(window.focused, FocusedState::Focused);
    assert_eq!(window.should_render, ShouldRender::Immediately);
    let plan = app.window_event(ID, WindowEvent::Focused(false)).unwrap();
    assert_eq!(plan.effects, vec![Effect::SendFocusLost]);
    assert_eq!(app.window_wrapper.route(ID).unwrap().focused, FocusedState::UnfocusedNotDrawn);
    assert_eq!(app.window_wrapper.route(OTHER).unwrap().focused, FocusedState::Unfocused);
    assert_eq!(app.window_wrapper.route(OTHER).unwrap().should_render, ShouldRender::Wait);
    assert!(app.window_event(NONE, WindowEvent::Focused(true)).is_none());
}

#[test]
fn an_unknown_window_event_changes_nothing() {
    let mut app = app(true);
    let plan = app.window_event(ID, WindowEvent::Other).unwrap();
    assert!(!plan.render_now);
    assert_eq!(plan.effects, vec![]);
    assert_eq!(app.window_wrapper.route(ID).unwrap().should_render, ShouldRender::Wait);
}

#[test]
fn a_redraw_event_without_pending_render_is_noted() {
    let mut app = app(true);
    let plan = app.window_event(ID, WindowEvent::RedrawRequested).unwrap();
    assert!(!plan.render_now);
    assert_eq!(app.window_wrapper.route(ID).unwrap().should_render, ShouldRender::Immediately);
}

#[test]
fn a_window_event_before_the_first_frame_makes_no_frame_due() {
    let mut app = app(true);
    app.window_wrapper.route_mut(ID).unwrap().ui_state = UIState::Initing;
    let plan = app.window_event(ID, WindowEvent::Resized).unwrap();
    assert_eq!(plan.effects, vec![Effect::ResizeSurface]);
    assert_eq!(app.window_wrapper.route(ID).unwrap().should_render, ShouldRender::Wait);
}

#[test]
fn user_events_reach_the_window_they_name() {
    let mut app = app(true);
    assert!(matches!(app.user_event(ID, UserEvent::Exit), Some(UserEventOutcome::Exit)));
    assert!(matches!(
        app.user_event(ID, UserEvent::DrawCommandBatch("x")),
        Some(UserEventOutcome::Handle(UserEvent::DrawCommandBatch("x")))
    ));
    assert_eq!(app.window_wrapper.route(ID).unwrap().should_render, ShouldRender::Immediately);
    assert_eq!(app.window_wrapper.route(OTHER).unwrap().should_render, ShouldRender::Wait);
    assert!(app.user_event(NONE, UserEvent::Exit).is_none());
}

#[test]
fn windows_are_created_at_start_and_on_request() {
    let app = app(true);
    assert!(app.new_events(StartCause::Init));
    assert!(app.new_events(StartCause::CreateWindow));
    assert!(!app.new_events(StartCause::ResumeTimeReached));
    assert!(!app.new_events(StartCause::WaitCancelled));
    assert!(!app.new_events(StartCause::Poll));
}

#[test]
fn resuming_allows_the_window_to_be_created() {
    let mut app = app(true);
    app.window_wrapper.route_mut(ID).unwrap().create_window_allowed = false;
    assert!(app.resumed(ID));
    assert!(app.window_wrapper.route(ID).unwrap().create_window_allowed);
    assert!(!app.resumed(NONE));
    app.exiting();
    assert!(app.window_wrapper.has_route(ID));
}
