//! What reaches the scheduler: window events from the platform and
//! application events from the host bridge and from the settings.
//!
//! The events carry only what the scheduler reads. A payload that is merely
//! passed on (a dropped file's path, a scale factor) stays with the caller.

use crate::window::settings::OptionAsMeta;
use crate::window::settings::Theme;
use vstd::prelude::*;

verus! {

/// Why the event loop woke up.
#[derive(Clone, Copy, Debug, PartialEq, Eq, Structural)]
pub enum StartCause {
    Init,
    ResumeTimeReached,
    WaitCancelled,
    Poll,
    CreateWindow,
}

/// An event of the platform window.
#[derive(Clone, Copy, Debug, PartialEq, Eq, Structural)]
pub enum WindowEvent {
    CloseRequested,
    ScaleFactorChanged,
    Resized,
    DroppedFile,
    Focused(bool),
    ThemeChanged(Theme),
    Moved,
    ImeEnabled,
    ImeDisabled,
    RedrawRequested,
    /// Any event that the scheduler has no use for.
    Other,
}

/// A command that acts on the window.
#[derive(Debug)]
pub enum WindowCommand {
    TitleChanged(String),
    SetMouseEnabled(bool),
    ListAvailableFonts,
    FocusWindow,
    Minimize,
    ThemeChanged(Option<Theme>),
    RegisterRightClick,
    UnregisterRightClick,
}

/// A window setting that has changed.
#[derive(Clone, Copy, Debug, PartialEq, Eq, Structural)]
pub enum WindowSettingsChanged {
    ObservedColumns(Option<u64>),
    ObservedLines(Option<u64>),
    Fullscreen(bool),
    InputIme(bool),
    ScaleFactor,
    WindowBlurred(bool),
    InputMacosOptionKeyIsMeta(OptionAsMeta),
    InputMacosAltIsMeta(bool),
    /// Any setting that the window handlers do not act on.
    Other,
}

/// A renderer setting that has changed.
#[derive(Clone, Copy, Debug, PartialEq, Eq, Structural)]
pub enum RendererSettingsChanged {
    TextGamma,
    TextContrast,
    /// Any setting that does not change how text is laid out.
    Other,
}

/// An event that the application injects into the event loop. `B` is a
/// batch of content updates.
#[derive(Debug)]
pub enum UserEvent<B> {
    /// The host has gone away.
    Exit,
    RedrawRequested,
    DrawCommandBatch(B),
    WindowCommand(WindowCommand),
    WindowSettingsChanged(WindowSettingsChanged),
    RendererSettingsChanged(RendererSettingsChanged),
    ConfigsChanged,
    /// Any event that changes no scheduler state of its own.
    Other,
}

/// What the content renderer reports after it has taken in a batch.
#[derive(Clone, Copy, Debug, PartialEq, Eq, Structural)]
pub struct DrawCommandResult {
    pub font_changed: bool,
    pub should_show: bool,
}

} // verus!
