//! The settings that the scheduler and the window handlers read.

use crate::window::units::GridSize;
use crate::window::units::PixelSize;
use vstd::prelude::*;

verus! {

/// The colour scheme of a window as the platform reports it.
#[derive(Clone, Copy, Debug, PartialEq, Eq, Structural)]
pub enum Theme {
    Light,
    Dark,
}

/// The background that the host is told to use.
#[derive(Clone, Copy, Debug, PartialEq, Eq, Structural)]
pub enum Background {
    Light,
    Dark,
}

/// The theme that the user has chosen.
#[derive(Clone, Copy, Debug, PartialEq, Eq, Structural)]
pub enum ThemeSetting {
    /// Follow the platform.
    Auto,
    Light,
    Dark,
    /// Leave the background as the host has it.
    Unset,
}

/// Which modifier keys act as meta on platforms that tell them apart.
#[derive(Clone, Copy, Debug, PartialEq, Eq, Structural)]
pub enum OptionAsMeta {
    OnlyLeft,
    OnlyRight,
    Both,
    Neither,
}

/// The window settings that are read on every cycle.
#[derive(Clone, Copy, Debug, PartialEq, Eq, Structural)]
pub struct WindowSettings {
    /// The target redraw frequency, in frames per second, while the window
    /// is in use.
    pub refresh_rate: u64,
    /// The target redraw frequency while the window is unfocused and idle.
    pub refresh_rate_idle: u64,
    pub padding_top: u32,
    pub padding_left: u32,
    pub padding_right: u32,
    pub padding_bottom: u32,
    pub theme: ThemeSetting,
    /// Whether the window is less than fully opaque.
    pub transparent: bool,
    pub window_blurred: bool,
    pub fullscreen: bool,
    pub input_ime: bool,
}

/// The size that a window is created with.
#[derive(Clone, Copy, Debug, PartialEq, Eq, Structural)]
pub enum WindowSize {
    Size(PixelSize),
    Maximized,
    Grid(GridSize),
    /// The grid that the content renderer starts with.
    HostGrid,
}

/// The bounds that a requested grid size is held to, and the size that is
/// taken where none was ever recorded.
#[derive(Clone, Copy, Debug, PartialEq, Eq, Structural)]
pub struct GridLimits {
    pub min: GridSize,
    pub max: GridSize,
    pub default: GridSize,
}

impl ThemeSetting {
    /// The setting that a name stands for: `auto`, `light` and `dark` name
    /// themselves, any other name leaves the theme unset.
    pub open spec fn named(name: Seq<char>) -> ThemeSetting {
        if name == "auto"@ {
            ThemeSetting::Auto
        } else if name == "light"@ {
            ThemeSetting::Light
        } else if name == "dark"@ {
            ThemeSetting::Dark
        } else {
            ThemeSetting::Unset
        }
    }

    /// Reads a theme setting from its name.
    pub fn from_name(name: &str) -> (setting: ThemeSetting)
        ensures
            setting == ThemeSetting::named(name@),
    {
        let given: String = name.to_owned();
        if given == "auto".to_owned() {
            ThemeSetting::Auto
        } else if given == "light".to_owned() {
            ThemeSetting::Light
        } else if given == "dark".to_owned() {
            ThemeSetting::Dark
        } else {
            ThemeSetting::Unset
        }
    }
}

} // verus!
