//! What the caller has to carry out on behalf of the scheduler.

use crate::window::settings::Background;
use crate::window::settings::OptionAsMeta;
use crate::window::settings::Theme;
use crate::window::units::GridSize;
use vstd::prelude::*;

verus! {

/// One action on the window, the drawing surface, the content renderer or
/// the host. A handler returns the effects of an event in the order in which
/// they are to be carried out.
#[derive(Clone, Copy, Debug, PartialEq, Eq, Structural)]
pub enum Effect {
    /// Tell the host to quit.
    SendQuit,
    /// Tell the host that the window has lost the focus.
    SendFocusLost,
    /// Tell the host that the window has the focus.
    SendFocusGained,
    /// Send the host a key press without effect, which tells it that the
    /// window is back from being minimized.
    SendKeyboardNop,
    /// Tell the host which file was dropped on the window.
    SendFileDrop,
    /// Tell the host which fonts the renderer offers.
    SendFontNames,
    /// Tell the host which background to use.
    SendSetBackground(Background),
    /// Tell the host the new size of the grid.
    SendGridResize(GridSize),
    /// Make the window borderless fullscreen, or windowed again.
    SetFullscreen(bool),
    /// Allow or forbid input-method input.
    SetIme(bool),
    /// Blur what lies behind the window, or stop doing so.
    SetBlur(bool),
    /// Show the recorded title on the window.
    SetTitle,
    /// Set the theme of the window; `None` follows the platform.
    SetTheme(Option<Theme>),
    /// Bring the window to the front.
    FocusWindow,
    /// Minimize the window.
    Minimize,
    /// Resize the drawing surface to the window.
    ResizeSurface,
    /// Hand the platform's new scale factor to the renderer.
    UpdateOsScaleFactor,
    /// Hand the user's new scale factor to the renderer.
    UpdateUserScaleFactor,
    /// Let the frame pacing look at the display again.
    UpdateVsync,
    /// Work out where the text cursor is and hand it to
    /// `update_ime_position`, with the given `force`.
    UpdateImePosition(bool),
    /// Hand the reloaded configuration to the renderer.
    ReloadConfig,
    /// Set which modifier keys act as meta.
    SetOptionAsMeta(OptionAsMeta),
    /// Warn that the former meta-key setting is gone.
    WarnAltIsMetaRemoved,
    /// Offer the application in the context menu of files.
    RegisterRightClick,
    /// Withdraw it from the context menu of files.
    UnregisterRightClick,
}

} // verus!
