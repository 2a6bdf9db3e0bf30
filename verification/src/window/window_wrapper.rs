//! The window wrapper: the table of windows with what they share, and the
//! handlers that turn events into state changes and effects.

use crate::decision::ShouldRender;
use crate::window::effects::Effect;
use crate::window::events::DrawCommandResult;
use crate::window::events::RendererSettingsChanged;
use crate::window::events::UserEvent;
use crate::window::events::WindowCommand;
use crate::window::events::WindowEvent;
use crate::window::events::WindowSettingsChanged;
use crate::window::route::DrawPlan;
use crate::window::route::RouteWindow;
use crate::window::route::RouteWindowView;
use crate::window::route::UIState;
use crate::window::route_table::table_first_key;
use crate::window::route_table::table_get;
use crate::window::route_table::table_get_mut;
use crate::window::route_table::table_insert;
use crate::window::settings::Background;
use crate::window::settings::GridLimits;
use crate::window::settings::OptionAsMeta;
use crate::window::settings::Theme;
use crate::window::settings::ThemeSetting;
use crate::window::settings::WindowSettings;
use crate::window::settings::WindowSize;
use crate::window::units::GridSize;
use crate::window::units::PixelRect;
use crate::window::units::PixelSize;
use rustc_hash::FxHashMap;
use vstd::prelude::*;

verus! {

/// The space kept free between the edges of the window and the grid.
#[derive(Copy, Clone, Debug, Eq, PartialEq, Structural)]
pub struct WindowPadding {
    pub top: u32,
    pub left: u32,
    pub right: u32,
    pub bottom: u32,
}

/// One window of the application.
pub struct Route<B> {
    pub window: RouteWindow<B>,
}

impl<B> View for Route<B> {
    type V = RouteWindowView<B>;

    open spec fn view(&self) -> RouteWindowView<B> {
        self.window@
    }
}

impl<B> Route<B> {
    /// A route for `window`.
    pub fn new(window: RouteWindow<B>) -> (route: Route<B>)
        ensures
            route.window == window,
    {
        Route { window }
    }
}

/// The windows of the application and what they share.
pub struct WinitWindowWrapper<B> {
    pub window_padding: WindowPadding,
    pub initial_window_size: WindowSize,
    pub ime_enabled: bool,
    pub routes: FxHashMap<u64, Route<B>>,
    /// Where the platform was last told that the text cursor is.
    pub ime_area: Option<PixelRect>,
    pub settings: WindowSettings,
}

/// The window wrapper as a mathematical value.
#[verifier::ext_equal]
pub struct WinitWindowWrapperView<B> {
    pub window_padding: WindowPadding,
    pub initial_window_size: WindowSize,
    pub ime_enabled: bool,
    pub routes: Map<u64, RouteWindowView<B>>,
    pub ime_area: Option<PixelRect>,
    pub settings: WindowSettings,
}

impl<B> View for WinitWindowWrapper<B> {
    type V = WinitWindowWrapperView<B>;

    open spec fn view(&self) -> WinitWindowWrapperView<B> {
        WinitWindowWrapperView {
            window_padding: self.window_padding,
            initial_window_size: self.initial_window_size,
            ime_enabled: self.ime_enabled,
            routes: self.routes@.map_values(|route: Route<B>| route@),
            ime_area: self.ime_area,
            settings: self.settings,
        }
    }
}

/// What an event of the platform window leads to.
pub struct WindowEventOutcome {
    /// Whether the event makes the next frame due at once.
    pub should_render: bool,
    /// What is to be carried out, in this order.
    pub effects: Vec<Effect>,
}

/// What the handling of an application event leads to.
pub struct UserEventHandled<B> {
    /// What is to be carried out, in this order.
    pub effects: Vec<Effect>,
    /// The batch that the content renderer is to take in now; what it
    /// reports goes to `handle_draw_commands`.
    pub batch: Option<B>,
}

/// What was observed of the window at the start of a cycle.
#[derive(Clone, Copy, Debug, PartialEq, Eq, Structural)]
pub struct FrameObservation {
    /// The padding that the settings ask for.
    pub padding: WindowPadding,
    /// Whether the platform reports the window as minimized.
    pub minimized: bool,
    /// The inner size of the window.
    pub inner_size: PixelSize,
}

/// How the size of the window or of the grid is to be brought up to date.
#[derive(Clone, Copy, Debug, PartialEq, Eq, Structural)]
pub enum LayoutChange {
    Unchanged,
    /// Ask the platform for the window size that fits this grid.
    ResizeWindow(GridSize),
    /// Measure the grid that fits into the given content size and hand it
    /// to `update_grid_size_from_window`.
    MeasureGrid(PixelSize),
}

/// What the preparation of a frame has decided.
#[derive(Clone, Copy, Debug, PartialEq, Eq, Structural)]
pub struct PreparePlan {
    /// The decision so far; the renderer's readiness is still to be merged
    /// into it.
    pub should_render: ShouldRender,
    pub layout: LayoutChange,
    /// Whether the window has reached its first frame, so that the input
    /// method position and the content renderer are to be prepared too.
    pub proceed: bool,
}

impl WindowPadding {
    /// The padding that `settings` asks for, with `extra_top` more at the
    /// top (the height of a title bar drawn inside the window).
    pub open spec fn from_settings(settings: WindowSettings, extra_top: u32) -> WindowPadding {
        WindowPadding {
            top: if settings.padding_top + extra_top > u32::MAX {
                u32::MAX
            } else {
                (settings.padding_top + extra_top) as u32
            },
            left: settings.padding_left,
            right: settings.padding_right,
            bottom: settings.padding_bottom,
        }
    }

    /// What is left of a window of `size` inside the padding; nothing
    /// where the padding is larger than the window.
    pub open spec fn content_size(self, size: PixelSize) -> PixelSize {
        PixelSize {
            width: if size.width >= self.left + self.right {
                (size.width - self.left - self.right) as u32
            } else {
                0
            },
            height: if size.height >= self.top + self.bottom {
                (size.height - self.top - self.bottom) as u32
            } else {
                0
            },
        }
    }

    /// The size of the window around a content of `content`, held to what
    /// a size can express.
    pub open spec fn window_size(self, content: PixelSize) -> PixelSize {
        PixelSize {
            width: if content.width + self.left + self.right > u32::MAX {
                u32::MAX
            } else {
                (content.width + self.left + self.right) as u32
            },
            height: if content.height + self.top + self.bottom > u32::MAX {
                u32::MAX
            } else {
                (content.height + self.top + self.bottom) as u32
            },
        }
    }

    /// Computes [`WindowPadding::content_size`].
    pub fn shrink(&self, size: PixelSize) -> (content: PixelSize)
        ensures
            content == self.content_size(size),
    {
        PixelSize {
            width: size.width.saturating_sub(self.left).saturating_sub(self.right),
            height: size.height.saturating_sub(self.top).saturating_sub(self.bottom),
        }
    }

    /// Computes [`WindowPadding::window_size`].
    pub fn grow(&self, content: PixelSize) -> (size: PixelSize)
        ensures
            size == self.window_size(content),
    {
        PixelSize {
            width: content.width.saturating_add(self.left).saturating_add(self.right),
            height: content.height.saturating_add(self.top).saturating_add(self.bottom),
        }
    }
}

/// The background that goes with a theme of the platform.
pub open spec fn background_for(theme: Theme) -> Background {
    match theme {
        Theme::Light => Background::Light,
        Theme::Dark => Background::Dark,
    }
}

/// The background that a new window tells the host to use: the one the
/// settings name, or with `Auto` the one that goes with the window's theme,
/// if the platform reports one.
pub open spec fn initial_background_for(setting: ThemeSetting, window_theme: Option<Theme>)
    -> Option<Background> {
    match setting {
        ThemeSetting::Light => Some(Background::Light),
        ThemeSetting::Dark => Some(Background::Dark),
        ThemeSetting::Auto => match window_theme {
            Some(theme) => Some(background_for(theme)),
            None => None,
        },
        ThemeSetting::Unset => None,
    }
}

/// Whether a window at `position` with the outer size `size` lies wholly
/// outside a monitor at `monitor_position` with the size `monitor_size`.
pub open spec fn off_monitor(
    position: (i32, i32),
    size: PixelSize,
    monitor_position: (i32, i32),
    monitor_size: PixelSize,
) -> bool {
    ||| position.0 + size.width < monitor_position.0
    ||| position.1 + size.height < monitor_position.1
    ||| position.0 > monitor_position.0 + monitor_size.width
    ||| position.1 > monitor_position.1 + monitor_size.height
}

impl<B> RouteWindowView<B> {
    /// What regaining the focus leads to: the host is told, and after the
    /// window was minimized it is sent a key press without effect.
    pub open spec fn focus_gained_effects(self) -> Seq<Effect> {
        if self.is_minimized {
            seq![Effect::SendFocusGained, Effect::SendKeyboardNop]
        } else {
            seq![Effect::SendFocusGained]
        }
    }

    /// The state after the focus was regained.
    pub open spec fn focus_gained(self) -> Self {
        RouteWindowView { is_minimized: false, ..self }
    }

    /// The state after a command has acted on the window.
    pub open spec fn window_command_handled(self, command: WindowCommand) -> Self {
        match command {
            WindowCommand::TitleChanged(title) => RouteWindowView { title: title@, ..self },
            WindowCommand::SetMouseEnabled(enabled) => RouteWindowView {
                mouse_enabled: enabled,
                ..self
            },
            WindowCommand::Minimize => RouteWindowView { is_minimized: true, ..self },
            _ => self,
        }
    }

    /// The state after a window setting has changed.
    pub open spec fn window_settings_changed(self, changed: WindowSettingsChanged) -> Self {
        match changed {
            WindowSettingsChanged::ObservedColumns(columns) => RouteWindowView {
                requested_columns: match columns {
                    Some(value) => Some(value as u32),
                    None => None,
                },
                ..self
            },
            WindowSettingsChanged::ObservedLines(lines) => RouteWindowView {
                requested_lines: match lines {
                    Some(value) => Some(value as u32),
                    None => None,
                },
                ..self
            },
            WindowSettingsChanged::ScaleFactor => RouteWindowView {
                font_changed_last_frame: true,
                ..self
            },
            _ => self,
        }
    }

    /// The state after something has changed how text is laid out.
    pub open spec fn font_changed(self) -> Self {
        RouteWindowView { font_changed_last_frame: true, ..self }
    }

    /// Whether the frame is laid out anew from the size of the window.
    pub open spec fn layout_outdated(
        self,
        observed: FrameObservation,
        padding_changed: bool,
    ) -> bool {
        !observed.minimized && (self.saved_inner_size != observed.inner_size
            || self.font_changed_last_frame || padding_changed)
    }
}

/// What a command that acts on the window leads to.
pub open spec fn window_command_effects(command: WindowCommand) -> Seq<Effect> {
    match command {
        WindowCommand::TitleChanged(_) => seq![Effect::SetTitle],
        WindowCommand::SetMouseEnabled(_) => seq![],
        WindowCommand::ListAvailableFonts => seq![Effect::SendFontNames],
        WindowCommand::FocusWindow => seq![Effect::FocusWindow],
        WindowCommand::Minimize => seq![Effect::Minimize],
        WindowCommand::ThemeChanged(theme) => seq![Effect::SetTheme(theme)],
        WindowCommand::RegisterRightClick => seq![Effect::RegisterRightClick],
        WindowCommand::UnregisterRightClick => seq![Effect::UnregisterRightClick],
    }
}

/// What a change of the renderer settings leads to.
pub open spec fn render_settings_effects(changed: RendererSettingsChanged) -> Seq<Effect> {
    match changed {
        RendererSettingsChanged::TextGamma => seq![Effect::ResizeSurface],
        RendererSettingsChanged::TextContrast => seq![Effect::ResizeSurface],
        RendererSettingsChanged::Other => seq![],
    }
}

/// Whether a changed window setting names a number of columns or lines
/// that a grid can have.
pub open spec fn setting_fits(changed: WindowSettingsChanged) -> bool {
    match changed {
        WindowSettingsChanged::ObservedColumns(Some(value)) => value <= u32::MAX,
        WindowSettingsChanged::ObservedLines(Some(value)) => value <= u32::MAX,
        _ => true,
    }
}

impl<B> WinitWindowWrapperView<B> {
    /// A wrapper without windows: no padding recorded, input-method input
    /// off.
    pub open spec fn initial(initial_window_size: WindowSize, settings: WindowSettings) -> Self {
        WinitWindowWrapperView {
            window_padding: WindowPadding { top: 0, left: 0, right: 0, bottom: 0 },
            initial_window_size,
            ime_enabled: false,
            routes: Map::empty(),
            ime_area: None,
            settings,
        }
    }

    /// Whether the wrapper has a window `id`.
    pub open spec fn has_route(self, id: u64) -> bool {
        self.routes.contains_key(id)
    }

    /// The wrapper with the window `id` in the state `window`.
    pub open spec fn with_route(self, id: u64, window: RouteWindowView<B>) -> Self {
        WinitWindowWrapperView { routes: self.routes.insert(id, window), ..self }
    }

    /// What an event of the window `id` leads to.
    pub open spec fn window_event_effects(self, id: u64, event: WindowEvent) -> Seq<Effect> {
        match event {
            WindowEvent::CloseRequested => seq![Effect::SendQuit],
            WindowEvent::ScaleFactorChanged => seq![
                Effect::UpdateOsScaleFactor,
                Effect::ResizeSurface,
            ],
            WindowEvent::Resized => seq![Effect::ResizeSurface],
            WindowEvent::DroppedFile => seq![Effect::SendFileDrop],
            WindowEvent::Focused(focus) => if focus {
                self.routes[id].focus_gained_effects()
            } else {
                seq![Effect::SendFocusLost]
            },
            WindowEvent::ThemeChanged(theme) => if self.settings.theme is Auto {
                seq![Effect::SendSetBackground(background_for(theme))]
            } else {
                seq![]
            },
            WindowEvent::Moved => seq![Effect::UpdateVsync],
            WindowEvent::ImeEnabled => seq![Effect::UpdateImePosition(true)],
            WindowEvent::ImeDisabled => seq![],
            WindowEvent::RedrawRequested => seq![],
            WindowEvent::Other => seq![],
        }
    }

    /// Whether the scheduler acts on the event at all.
    pub open spec fn window_event_known(event: WindowEvent) -> bool {
        !(event is RedrawRequested || event is Other)
    }

    /// Whether an event of the window `id` makes the next frame due at
    /// once: a known event on a window that has reached its first frame.
    pub open spec fn window_event_renders(self, id: u64, event: WindowEvent) -> bool {
        self.routes[id].ui_state.rank() >= UIState::FirstFrame.rank() && Self::window_event_known(
            event,
        )
    }

    /// The wrapper after an event of the window `id`, which it has.
    pub open spec fn window_event_handled(self, id: u64, event: WindowEvent) -> Self {
        match event {
            WindowEvent::Focused(true) => self.with_route(id, self.routes[id].focus_gained()),
            WindowEvent::ImeEnabled => WinitWindowWrapperView { ime_enabled: true, ..self },
            WindowEvent::ImeDisabled => WinitWindowWrapperView { ime_enabled: false, ..self },
            _ => self,
        }
    }

    /// What a changed window setting leads to.
    pub open spec fn window_settings_effects(self, changed: WindowSettingsChanged) -> Seq<Effect> {
        match changed {
            WindowSettingsChanged::Fullscreen(fullscreen) => seq![Effect::SetFullscreen(fullscreen)],
            WindowSettingsChanged::InputIme(enabled) => seq![Effect::SetIme(enabled)],
            WindowSettingsChanged::ScaleFactor => seq![Effect::UpdateUserScaleFactor],
            WindowSettingsChanged::WindowBlurred(blur) => seq![
                Effect::SetBlur(blur && self.settings.transparent),
            ],
            WindowSettingsChanged::InputMacosOptionKeyIsMeta(option) => seq![
                Effect::SetOptionAsMeta(option),
            ],
            WindowSettingsChanged::InputMacosAltIsMeta(enabled) => if enabled {
                seq![Effect::WarnAltIsMetaRemoved]
            } else {
                seq![]
            },
            _ => seq![],
        }
    }

    /// What the handling of an application event for the window `id` leads
    /// to.
    pub open spec fn user_event_effects(self, event: UserEvent<B>) -> Seq<Effect> {
        match event {
            UserEvent::WindowCommand(command) => window_command_effects(command),
            UserEvent::WindowSettingsChanged(changed) => self.window_settings_effects(changed),
            UserEvent::RendererSettingsChanged(changed) => render_settings_effects(changed),
            UserEvent::ConfigsChanged => seq![Effect::ReloadConfig],
            _ => seq![],
        }
    }

    /// The batch that the content renderer is to take in.
    pub open spec fn user_event_batch(event: UserEvent<B>) -> Option<B> {
        match event {
            UserEvent::DrawCommandBatch(batch) => Some(batch),
            _ => None,
        }
    }

    /// The state of the window `id` after the handling of an application
    /// event.
    pub open spec fn user_event_handled(self, id: u64, event: UserEvent<B>) -> Self {
        let window = self.routes[id];
        match event {
            UserEvent::WindowCommand(command) => self.with_route(
                id,
                window.window_command_handled(command),
            ),
            UserEvent::WindowSettingsChanged(changed) => self.with_route(
                id,
                window.window_settings_changed(changed),
            ),
            UserEvent::RendererSettingsChanged(changed) => if changed is Other {
                self
            } else {
                self.with_route(id, window.font_changed())
            },
            UserEvent::ConfigsChanged => self.with_route(id, window.font_changed()),
            _ => self,
        }
    }

    /// Whether an application event can be handled: a requested number of
    /// columns or lines has to be one that a grid can have.
    pub open spec fn user_event_fits(event: UserEvent<B>) -> bool {
        match event {
            UserEvent::WindowSettingsChanged(changed) => setting_fits(changed),
            _ => true,
        }
    }

    /// What the preparation of a frame for the window `id` decides.
    pub open spec fn prepare_plan(
        self,
        id: u64,
        observed: FrameObservation,
        limits: GridLimits,
    ) -> PreparePlan {
        let window = self.routes[id];
        if window.ui_state.rank() < UIState::FirstFrame.rank() {
            PreparePlan {
                should_render: ShouldRender::Wait,
                layout: LayoutChange::Unchanged,
                proceed: false,
            }
        } else {
            let first = if window.ui_state is FirstFrame {
                ShouldRender::Immediately
            } else {
                ShouldRender::Wait
            };
            if window.resize_requested() {
                PreparePlan {
                    should_render: first,
                    layout: LayoutChange::ResizeWindow(window.requested_grid_size(limits)),
                    proceed: true,
                }
            } else if window.layout_outdated(observed, observed.padding != self.window_padding) {
                PreparePlan {
                    should_render: ShouldRender::Immediately,
                    layout: LayoutChange::MeasureGrid(
                        observed.padding.content_size(observed.inner_size),
                    ),
                    proceed: true,
                }
            } else {
                PreparePlan { should_render: first, layout: LayoutChange::Unchanged, proceed: true }
            }
        }
    }

    /// The wrapper after the preparation of a frame for the window `id`.
    pub open spec fn frame_prepared(self, id: u64, observed: FrameObservation) -> Self {
        let window = self.routes[id];
        if window.ui_state.rank() < UIState::FirstFrame.rank() {
            self
        } else if window.resize_requested() {
            self.with_route(id, window.resize_request_taken())
        } else if window.layout_outdated(observed, observed.padding != self.window_padding) {
            WinitWindowWrapperView {
                window_padding: observed.padding,
                routes: self.routes.insert(
                    id,
                    RouteWindowView { saved_inner_size: observed.inner_size, ..window },
                ),
                ..self
            }
        } else {
            self
        }
    }

    /// Whether the platform is told where the text cursor is: only while
    /// input-method input is on and there is a window, and then if the area
    /// has changed or `force` is set.
    pub open spec fn ime_position_outdated(self, force: bool, area: PixelRect) -> bool {
        self.ime_enabled && !(self.routes.dom() =~= Set::<u64>::empty()) && (force || self.ime_area
            != Some(area))
    }
}

impl<B> WinitWindowWrapper<B> {
    /// A wrapper without windows.
    pub fn new(initial_window_size: WindowSize, settings: WindowSettings) -> (wrapper:
        WinitWindowWrapper<B>)
        ensures
            wrapper@ == WinitWindowWrapperView::<B>::initial(initial_window_size, settings),
    {
        let wrapper = WinitWindowWrapper {
            routes: FxHashMap::default(),
            window_padding: WindowPadding { left: 0, right: 0, top: 0, bottom: 0 },
            initial_window_size,
            ime_enabled: false,
            ime_area: None,
            settings,
        };
        assert(wrapper@.routes =~= Map::empty());
        assert(wrapper@ =~= WinitWindowWrapperView::<B>::initial(initial_window_size, settings));
        wrapper
    }

    /// Whether the wrapper has no window.
    pub fn is_empty(&self) -> (empty: bool)
        ensures
            empty == (self@.routes.dom() =~= Set::<u64>::empty()),
    {
        let empty = self.routes.is_empty();
        assert(self@.routes.dom() =~= self.routes@.dom());
        empty
    }

    /// The id of the window that acts as the active one: some window of the
    /// wrapper, and none exactly if it has no window. With a single window
    /// it is that one.
    pub fn active_route(&self) -> (active: Option<u64>)
        ensures
            active is None <==> self@.routes.dom() =~= Set::<u64>::empty(),
            active matches Some(id) ==> self@.routes.contains_key(id),
    {
        let active = match table_first_key(&self.routes) {
            Some(id) => Some(*id),
            None => None,
        };
        assert(self@.routes.dom() =~= self.routes@.dom());
        active
    }

    /// The state of the window `id`, if there is such a window.
    pub fn route(&self, id: u64) -> (found: Option<&RouteWindow<B>>)
        ensures
            found is Some <==> self@.routes.contains_key(id),
            found matches Some(window) ==> window@ == self@.routes[id],
    {
        match table_get(&self.routes, id) {
            Some(route) => Some(&route.window),
            None => None,
        }
    }

    /// The state of the window `id` for changing it, if there is such a
    /// window. No other window changes.
    pub fn route_mut(&mut self, id: u64) -> (found: Option<&mut RouteWindow<B>>)
        ensures
            found is Some <==> old(self)@.routes.contains_key(id),
            found is None ==> final(self)@ =~= old(self)@,
            found is Some ==> found.unwrap()@ == old(self)@.routes[id] && final(self)@ =~= old(
                self,
            )@.with_route(id, final(found.unwrap())@),
    {
        match table_get_mut(&mut self.routes, id) {
            Some(route) => Some(&mut route.window),
            None => None,
        }
    }

    /// Whether the wrapper has a window `id`.
    pub fn has_route(&self, id: u64) -> (found: bool)
        ensures
            found == self@.has_route(id),
    {
        table_get(&self.routes, id).is_some()
    }

    /// Registers a window created at `now` under `id`, ready for its first
    /// frame. A window registered under `id` before is replaced.
    pub fn try_create_window(&mut self, id: u64, now: u64, inner_size: PixelSize, title: String)
        ensures
            final(self)@ =~= old(self)@.with_route(
                id,
                RouteWindowView {
                    ui_state: UIState::FirstFrame,
                    ..RouteWindowView::<B>::initial(now, inner_size, title@)
                },
            ),
    {
        let mut window: RouteWindow<B> = RouteWindow::new(now, inner_size, title);
        window.ui_state = UIState::FirstFrame;
        let _ = table_insert(&mut self.routes, id, Route::new(window));
    }

    /// Ends the wrapper's work. Nothing is held that would have to be
    /// released, so nothing changes.
    pub fn exit(&mut self)
        ensures
            final(self)@ =~= old(self)@,
    {
    }

    /// What is needed to make the window `id` fullscreen or windowed.
    pub fn set_fullscreen(&self, id: u64, fullscreen: bool) -> (effect: Option<Effect>)
        ensures
            effect == (if self@.has_route(id) {
                Some(Effect::SetFullscreen(fullscreen))
            } else {
                None
            }),
    {
        if self.has_route(id) {
            Some(Effect::SetFullscreen(fullscreen))
        } else {
            None
        }
    }

    /// What is needed to make `option` the modifier keys that act as meta
    /// in the window `id`, where `current` is what the window has: nothing if
    /// they are the same.
    pub fn set_macos_option_as_meta(&self, id: u64, option: OptionAsMeta, current: OptionAsMeta)
        -> (effect: Option<Effect>)
        ensures
            effect == (if self@.has_route(id) && option != current {
                Some(Effect::SetOptionAsMeta(option))
            } else {
                None
            }),
    {
        if self.has_route(id) && option != current {
            Some(Effect::SetOptionAsMeta(option))
        } else {
            None
        }
    }

    /// What is needed to minimize the window `id`.
    pub fn minimize_window(&self, id: u64) -> (effect: Option<Effect>)
        ensures
            effect == (if self@.has_route(id) {
                Some(Effect::Minimize)
            } else {
                None
            }),
    {
        if self.has_route(id) {
            Some(Effect::Minimize)
        } else {
            None
        }
    }

    /// What is needed to allow or forbid input-method input in the window
    /// `id`.
    pub fn set_ime(&self, id: u64, ime_enabled: bool) -> (effect: Option<Effect>)
        ensures
            effect == (if self@.has_route(id) {
                Some(Effect::SetIme(ime_enabled))
            } else {
                None
            }),
    {
        if self.has_route(id) {
            Some(Effect::SetIme(ime_enabled))
        } else {
            None
        }
    }

    /// What is needed to set the theme of the window `id`.
    pub fn handle_theme_changed(&self, id: u64, new_theme: Option<Theme>) -> (effect: Option<
        Effect,
    >)
        ensures
            effect == (if self@.has_route(id) {
                Some(Effect::SetTheme(new_theme))
            } else {
                None
            }),
    {
        if self.has_route(id) {
            Some(Effect::SetTheme(new_theme))
        } else {
            None
        }
    }

    /// Records the new title of the window `id`; the window is then to show
    /// it.
    pub fn handle_title_changed(&mut self, id: u64, new_title: String) -> (effect: Option<Effect>)
        ensures
            effect == (if old(self)@.has_route(id) {
                Some(Effect::SetTitle)
            } else {
                None
            }),
            final(self)@ =~= (if old(self)@.has_route(id) {
                old(self)@.with_route(
                    id,
                    RouteWindowView { title: new_title@, ..old(self)@.routes[id] },
                )
            } else {
                old(self)@
            }),
    {
        match table_get_mut(&mut self.routes, id) {
            Some(route) => {
                route.window.title = new_title;
                Some(Effect::SetTitle)
            },
            None => None,
        }
    }

    /// What is needed to tell the host which fonts there are, if there is a
    /// window `id` whose renderer can be asked.
    pub fn send_font_names(&self, id: u64) -> (effect: Option<Effect>)
        ensures
            effect == (if self@.has_route(id) {
                Some(Effect::SendFontNames)
            } else {
                None
            }),
    {
        if self.has_route(id) {
            Some(Effect::SendFontNames)
        } else {
            None
        }
    }

    /// What is needed when the window is to close.
    pub fn handle_quit(&self) -> (effect: Effect)
        ensures
            effect == Effect::SendQuit,
    {
        Effect::SendQuit
    }

    /// What is needed when the window has lost the focus.
    pub fn handle_focus_lost(&self) -> (effect: Effect)
        ensures
            effect == Effect::SendFocusLost,
    {
        Effect::SendFocusLost
    }

    /// Takes in that the window `id` has regained the focus.
    pub fn handle_focus_gained(&mut self, id: u64) -> (effects: Option<Vec<Effect>>)
        ensures
            effects is Some <==> old(self)@.has_route(id),
            effects matches Some(list) ==> list@ == old(self)@.routes[id].focus_gained_effects(),
            final(self)@ =~= (if old(self)@.has_route(id) {
                old(self)@.with_route(id, old(self)@.routes[id].focus_gained())
            } else {
                old(self)@
            }),
    {
        match table_get_mut(&mut self.routes, id) {
            Some(route) => {
                let mut effects: Vec<Effect> = Vec::new();
                effects.push(Effect::SendFocusGained);
                if route.window.is_minimized {
                    effects.push(Effect::SendKeyboardNop);
                    route.window.is_minimized = false;
                }
                Some(effects)
            },
            None => None,
        }
    }

    /// Takes in a command that acts on the window `id`.
    pub fn handle_window_command(&mut self, id: u64, command: WindowCommand) -> (effects: Option<
        Vec<Effect>,
    >)
        ensures
            effects is Some <==> old(self)@.has_route(id),
            effects matches Some(list) ==> list@ == window_command_effects(command),
            final(self)@ =~= (if old(self)@.has_route(id) {
                old(self)@.with_route(id, old(self)@.routes[id].window_command_handled(command))
            } else {
                old(self)@
            }),
    {
        match table_get_mut(&mut self.routes, id) {
            Some(route) => {
                let mut effects: Vec<Effect> = Vec::new();
                match command {
                    WindowCommand::TitleChanged(new_title) => {
                        route.window.title = new_title;
                        effects.push(Effect::SetTitle);
                    },
                    WindowCommand::SetMouseEnabled(mouse_enabled) => {
                        route.window.mouse_enabled = mouse_enabled;
                    },
                    WindowCommand::ListAvailableFonts => {
                        effects.push(Effect::SendFontNames);
                    },
                    WindowCommand::FocusWindow => {
                        effects.push(Effect::FocusWindow);
                    },
                    WindowCommand::Minimize => {
                        effects.push(Effect::Minimize);
                        route.window.is_minimized = true;
                    },
                    WindowCommand::ThemeChanged(new_theme) => {
                        effects.push(Effect::SetTheme(new_theme));
                    },
                    WindowCommand::RegisterRightClick => {
                        effects.push(Effect::RegisterRightClick);
                    },
                    WindowCommand::UnregisterRightClick => {
                        effects.push(Effect::UnregisterRightClick);
                    },
                }
                Some(effects)
            },
            None => None,
        }
    }

    /// Takes in a changed window setting for the window `id`.
    pub fn handle_window_settings_changed(&mut self, id: u64, changed: WindowSettingsChanged) -> (
        effects: Option<Vec<Effect>>)
        requires
            setting_fits(changed),
        ensures
            effects is Some <==> old(self)@.has_route(id),
            effects matches Some(list) ==> list@ == old(self)@.window_settings_effects(changed),
            final(self)@ =~= (if old(self)@.has_route(id) {
                old(self)@.with_route(id, old(self)@.routes[id].window_settings_changed(changed))
            } else {
                old(self)@
            }),
    {
        let transparent: bool = self.settings.transparent;
        match table_get_mut(&mut self.routes, id) {
            Some(route) => {
                let mut effects: Vec<Effect> = Vec::new();
                match changed {
                    WindowSettingsChanged::ObservedColumns(columns) => {
                        route.window.requested_columns = match columns {
                            Some(value) => Some(value as u32),
                            None => None,
                        };
                    },
                    WindowSettingsChanged::ObservedLines(lines) => {
                        route.window.requested_lines = match lines {
                            Some(value) => Some(value as u32),
                            None => None,
                        };
                    },
                    WindowSettingsChanged::Fullscreen(fullscreen) => {
                        effects.push(Effect::SetFullscreen(fullscreen));
                    },
                    WindowSettingsChanged::InputIme(ime_enabled) => {
                        effects.push(Effect::SetIme(ime_enabled));
                    },
                    WindowSettingsChanged::ScaleFactor => {
                        effects.push(Effect::UpdateUserScaleFactor);
                        route.window.font_changed_last_frame = true;
                    },
                    WindowSettingsChanged::WindowBlurred(blur) => {
                        effects.push(Effect::SetBlur(blur && transparent));
                    },
                    WindowSettingsChanged::InputMacosOptionKeyIsMeta(option) => {
                        effects.push(Effect::SetOptionAsMeta(option));
                    },
                    WindowSettingsChanged::InputMacosAltIsMeta(enabled) => {
                        if enabled {
                            effects.push(Effect::WarnAltIsMetaRemoved);
                        }
                    },
                    WindowSettingsChanged::Other => {},
                }
                Some(effects)
            },
            None => None,
        }
    }

    /// Takes in a changed renderer setting for the window `id`: a change
    /// of how text is drawn resizes the surface and lays the text out anew.
    pub fn handle_render_settings_changed(&mut self, id: u64, changed: RendererSettingsChanged)
        -> (effects: Option<Vec<Effect>>)
        ensures
            effects is Some <==> old(self)@.has_route(id),
            effects matches Some(list) ==> list@ == render_settings_effects(changed),
            final(self)@ =~= (if old(self)@.has_route(id) && !(changed is Other) {
                old(self)@.with_route(id, old(self)@.routes[id].font_changed())
            } else {
                old(self)@
            }),
    {
        match table_get_mut(&mut self.routes, id) {
            Some(route) => {
                let mut effects: Vec<Effect> = Vec::new();
                match changed {
                    RendererSettingsChanged::TextGamma => {
                        effects.push(Effect::ResizeSurface);
                        route.window.font_changed_last_frame = true;
                    },
                    RendererSettingsChanged::TextContrast => {
                        effects.push(Effect::ResizeSurface);
                        route.window.font_changed_last_frame = true;
                    },
                    RendererSettingsChanged::Other => {},
                }
                Some(effects)
            },
            None => None,
        }
    }

    /// Takes in that the configuration was reloaded: the renderer is to take
    /// it in, and the text of the window `id` is laid out anew.
    pub fn handle_config_changed(&mut self, id: u64) -> (effect: Option<Effect>)
        ensures
            effect == (if old(self)@.has_route(id) {
                Some(Effect::ReloadConfig)
            } else {
                None
            }),
            final(self)@ =~= (if old(self)@.has_route(id) {
                old(self)@.with_route(id, old(self)@.routes[id].font_changed())
            } else {
                old(self)@
            }),
    {
        match table_get_mut(&mut self.routes, id) {
            Some(route) => {
                route.window.font_changed_last_frame = true;
                Some(Effect::ReloadConfig)
            },
            None => None,
        }
    }

    /// Takes in what the content renderer reported about a batch for the
    /// window `id`. Returns whether there is such a window.
    pub fn handle_draw_commands(&mut self, id: u64, result: DrawCommandResult) -> (found: bool)
        ensures
            found == old(self)@.has_route(id),
            final(self)@ =~= (if old(self)@.has_route(id) {
                old(self)@.with_route(id, old(self)@.routes[id].draw_commands_handled(result))
            } else {
                old(self)@
            }),
    {
        match table_get_mut(&mut self.routes, id) {
            Some(route) => {
                route.window.handle_draw_commands(result);
                true
            },
            None => false,
        }
    }

    /// Says what the drawing of the next frame of the window `id` has to
    /// do, and records that it is done.
    pub fn draw_frame(&mut self, id: u64) -> (plan: Option<DrawPlan>)
        ensures
            plan == (if old(self)@.has_route(id) {
                Some(old(self)@.routes[id].draw_plan())
            } else {
                None
            }),
            final(self)@ =~= (if old(self)@.has_route(id) {
                old(self)@.with_route(id, old(self)@.routes[id].drawn())
            } else {
                old(self)@
            }),
    {
        match table_get_mut(&mut self.routes, id) {
            Some(route) => Some(route.window.draw_frame()),
            None => None,
        }
    }

    /// Takes in an event of the window `id` and says what it leads to.
    /// The event is to have been shown to the input handlers and to the
    /// content renderer before.
    pub fn handle_window_event(&mut self, event: WindowEvent, id: u64) -> (outcome: Option<
        WindowEventOutcome,
    >)
        ensures
            outcome is Some <==> old(self)@.has_route(id),
            outcome matches Some(o) ==> o.should_render == old(self)@.window_event_renders(id, event)
                && o.effects@ == old(self)@.window_event_effects(id, event),
            final(self)@ =~= (if old(self)@.has_route(id) {
                old(self)@.window_event_handled(id, event)
            } else {
                old(self)@
            }),
    {
        let follows_platform: bool = match self.settings.theme {
            ThemeSetting::Auto => true,
            _ => false,
        };
        match table_get_mut(&mut self.routes, id) {
            Some(route) => {
                let mut effects: Vec<Effect> = Vec::new();
                let mut should_render: bool = true;
                match event {
                    WindowEvent::CloseRequested => {
                        effects.push(Effect::SendQuit);
                    },
                    WindowEvent::ScaleFactorChanged => {
                        effects.push(Effect::UpdateOsScaleFactor);
                        effects.push(Effect::ResizeSurface);
                    },
                    WindowEvent::Resized => {
                        effects.push(Effect::ResizeSurface);
                    },
                    WindowEvent::DroppedFile => {
                        effects.push(Effect::SendFileDrop);
                    },
                    WindowEvent::Focused(focus) => {
                        if focus {
                            effects.push(Effect::SendFocusGained);
                            if route.window.is_minimized {
                                effects.push(Effect::SendKeyboardNop);
                                route.window.is_minimized = false;
                            }
                        } else {
                            effects.push(Effect::SendFocusLost);
                        }
                    },
                    WindowEvent::ThemeChanged(theme) => {
                        if follows_platform {
                            let background = match theme {
                                Theme::Light => Background::Light,
                                Theme::Dark => Background::Dark,
                            };
                            effects.push(set_background(background));
                        }
                    },
                    WindowEvent::Moved => {
                        effects.push(Effect::UpdateVsync);
                    },
                    WindowEvent::ImeEnabled => {
                        self.ime_enabled = true;
                        effects.push(Effect::UpdateImePosition(true));
                    },
                    WindowEvent::ImeDisabled => {
                        self.ime_enabled = false;
                    },
                    WindowEvent::RedrawRequested => {
                        should_render = false;
                    },
                    WindowEvent::Other => {
                        should_render = false;
                    },
                }
                let shown: bool = route.window.ui_state.has_reached_first_frame();
                Some(WindowEventOutcome { should_render: shown && should_render, effects })
            },
            None => None,
        }
    }

    /// Handles an application event for the window `id`: a batch is handed
    /// back for the content renderer to take in, a command or a changed
    /// setting acts on the window.
    pub fn handle_user_event(&mut self, id: u64, event: UserEvent<B>) -> (handled: Option<
        UserEventHandled<B>,
    >)
        requires
            WinitWindowWrapperView::<B>::user_event_fits(event),
        ensures
            handled is Some <==> old(self)@.has_route(id),
            handled matches Some(h) ==> h.effects@ == old(self)@.user_event_effects(event)
                && h.batch == WinitWindowWrapperView::<B>::user_event_batch(event),
            final(self)@ =~= (if old(self)@.has_route(id) {
                old(self)@.user_event_handled(id, event)
            } else {
                old(self)@
            }),
    {
        match event {
            UserEvent::DrawCommandBatch(batch) => {
                if self.has_route(id) {
                    Some(UserEventHandled { effects: Vec::new(), batch: Some(batch) })
                } else {
                    None
                }
            },
            UserEvent::WindowCommand(command) => {
                match self.handle_window_command(id, command) {
                    Some(effects) => Some(UserEventHandled { effects, batch: None }),
                    None => None,
                }
            },
            UserEvent::WindowSettingsChanged(changed) => {
                match self.handle_window_settings_changed(id, changed) {
                    Some(effects) => Some(UserEventHandled { effects, batch: None }),
                    None => None,
                }
            },
            UserEvent::RendererSettingsChanged(changed) => {
                match self.handle_render_settings_changed(id, changed) {
                    Some(effects) => Some(UserEventHandled { effects, batch: None }),
                    None => None,
                }
            },
            UserEvent::ConfigsChanged => {
                match self.handle_config_changed(id) {
                    Some(effect) => {
                        let mut effects: Vec<Effect> = Vec::new();
                        effects.push(effect);
                        Some(UserEventHandled { effects, batch: None })
                    },
                    None => None,
                }
            },
            _ => {
                if self.has_route(id) {
                    Some(UserEventHandled { effects: Vec::new(), batch: None })
                } else {
                    None
                }
            },
        }
    }

    /// Prepares a frame for the window `id` from what was observed of it.
    /// Nothing is prepared before the window has reached its first frame. A
    /// request for columns or lines goes first and resizes the window; the
    /// size that results is taken in by a later cycle. Otherwise, unless the
    /// window is minimized, a changed size, font or padding makes the grid due
    /// for measuring and the frame for rendering at once.
    pub fn prepare_frame(&mut self, id: u64, observed: FrameObservation, limits: &GridLimits) -> (
        plan: Option<PreparePlan>)
        ensures
            plan == (if old(self)@.has_route(id) {
                Some(old(self)@.prepare_plan(id, observed, *limits))
            } else {
                None
            }),
            final(self)@ =~= (if old(self)@.has_route(id) {
                old(self)@.frame_prepared(id, observed)
            } else {
                old(self)@
            }),
    {
        let padding_changed: bool = observed.padding != self.window_padding;
        match table_get_mut(&mut self.routes, id) {
            Some(route) => {
                if !route.window.ui_state.has_reached_first_frame() {
                    return Some(
                        PreparePlan {
                            should_render: ShouldRender::Wait,
                            layout: LayoutChange::Unchanged,
                            proceed: false,
                        },
                    );
                }
                let mut should_render = match route.window.ui_state {
                    UIState::FirstFrame => ShouldRender::Immediately,
                    _ => ShouldRender::Wait,
                };
                let resize_requested: bool = route.window.requested_columns.is_some()
                    || route.window.requested_lines.is_some();
                let mut layout = LayoutChange::Unchanged;
                if resize_requested {
                    layout = LayoutChange::ResizeWindow(
                        route.window.update_window_size_from_grid(limits),
                    );
                } else if !observed.minimized {
                    if route.window.saved_inner_size != observed.inner_size
                        || route.window.font_changed_last_frame || padding_changed {
                        self.window_padding = observed.padding;
                        route.window.saved_inner_size = observed.inner_size;
                        layout = LayoutChange::MeasureGrid(
                            observed.padding.shrink(observed.inner_size),
                        );
                        should_render = ShouldRender::Immediately;
                    }
                }
                Some(PreparePlan { should_render, layout, proceed: true })
            },
            None => None,
        }
    }

    /// Records the grid that fits into the window `id`: the grid `measured`
    /// from its size, raised to `min`. If it differs from the recorded one,
    /// the host is to be told.
    pub fn update_grid_size_from_window(&mut self, id: u64, measured: GridSize, min: GridSize) -> (
        effect: Option<Effect>)
        ensures
            effect == (if old(self)@.has_route(id) {
                match old(self)@.routes[id].grid_resize(measured, min) {
                    Some(grid_size) => Some(Effect::SendGridResize(grid_size)),
                    None => None,
                }
            } else {
                None
            }),
            final(self)@ =~= (if old(self)@.has_route(id) {
                old(self)@.with_route(
                    id,
                    old(self)@.routes[id].grid_size_recorded(measured.at_least(min)),
                )
            } else {
                old(self)@
            }),
    {
        match table_get_mut(&mut self.routes, id) {
            Some(route) => match route.window.update_grid_size_from_window(measured, min) {
                Some(grid_size) => Some(Effect::SendGridResize(grid_size)),
                None => None,
            },
            None => None,
        }
    }

    /// The padding that the settings ask for, with `extra_top` more at the
    /// top.
    pub fn calculate_window_padding(&self, extra_top: u32) -> (padding: WindowPadding)
        ensures
            padding == WindowPadding::from_settings(self@.settings, extra_top),
    {
        WindowPadding {
            top: self.settings.padding_top.saturating_add(extra_top),
            left: self.settings.padding_left,
            right: self.settings.padding_right,
            bottom: self.settings.padding_bottom,
        }
    }

    /// Decides whether input-method position `area` is handed to the
    /// platform, and records it if so.
    pub fn update_ime_position(&mut self, force: bool, area: PixelRect) -> (update: bool)
        ensures
            update == old(self)@.ime_position_outdated(force, area),
            final(self)@ =~= (if update {
                WinitWindowWrapperView { ime_area: Some(area), ..old(self)@ }
            } else {
                old(self)@
            }),
    {
        if !self.ime_enabled || self.is_empty() {
            return false;
        }
        let same: bool = match self.ime_area {
            Some(known) => known == area,
            None => false,
        };
        if force || !same {
            self.ime_area = Some(area);
            true
        } else {
            false
        }
    }
}

/// The command that tells the host which background to use.
pub fn set_background(background: Background) -> (effect: Effect)
    ensures
        effect == Effect::SendSetBackground(background),
{
    Effect::SendSetBackground(background)
}

/// The background that a new window tells the host to use.
pub fn initial_background(setting: ThemeSetting, window_theme: Option<Theme>) -> (background:
    Option<Background>)
    ensures
        background == initial_background_for(setting, window_theme),
{
    match setting {
        ThemeSetting::Light => Some(Background::Light),
        ThemeSetting::Dark => Some(Background::Dark),
        ThemeSetting::Auto => match window_theme {
            Some(Theme::Light) => Some(Background::Light),
            Some(Theme::Dark) => Some(Background::Dark),
            None => None,
        },
        ThemeSetting::Unset => None,
    }
}

/// Whether a new window lies wholly outside its monitor and is to be moved
/// onto it.
pub fn is_off_monitor(
    position: (i32, i32),
    size: PixelSize,
    monitor_position: (i32, i32),
    monitor_size: PixelSize,
) -> (off: bool)
    ensures
        off == off_monitor(position, size, monitor_position, monitor_size),
{
    let x: i64 = position.0 as i64;
    let y: i64 = position.1 as i64;
    let monitor_x: i64 = monitor_position.0 as i64;
    let monitor_y: i64 = monitor_position.1 as i64;
    x + (size.width as i64) < monitor_x || y + (size.height as i64) < monitor_y || x > monitor_x
        + (monitor_size.width as i64) || y > monitor_y + (monitor_size.height as i64)
}

} // verus!
