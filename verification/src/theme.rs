//! Theme selection state: the current mode and the toggling rule. Applying
//! a theme to a rendering context, and detecting the system preference,
//! happen outside the library; the toggle decision is taken here from the
//! current mode and the reported system preference.

use vstd::prelude::*;

verus! {

/// The theme the presentation layer should use.
#[derive(Debug, Clone, Copy, PartialEq, Eq, Structural)]
pub enum ThemeMode {
    Light,
    Dark,
    /// Follow the system preference.
    System,
}

/// The theme section of the configuration.
#[derive(Debug, Clone)]
pub struct ThemeConfig {
    pub mode: ThemeMode,
}

impl Default for ThemeMode {
    fn default() -> (r: Self)
        ensures
            r == ThemeMode::System,
    {
        ThemeMode::System
    }
}

impl Default for ThemeConfig {
    fn default() -> (r: Self)
        ensures
            r.mode == ThemeMode::System,
    {
        ThemeConfig { mode: ThemeMode::System }
    }
}

/// The mode a toggle switches to: light and dark swap; from the system
/// mode, the toggle moves to the opposite of the reported system
/// preference.
pub open spec fn toggled_mode_spec(current: ThemeMode, system_is_dark: bool) -> ThemeMode {
    match current {
        ThemeMode::Light => ThemeMode::Dark,
        ThemeMode::Dark => ThemeMode::Light,
        ThemeMode::System => if system_is_dark {
            ThemeMode::Light
        } else {
            ThemeMode::Dark
        },
    }
}

/// The icon shown for a mode.
pub open spec fn theme_icon_spec(mode: ThemeMode) -> Seq<char> {
    match mode {
        ThemeMode::Light => "\u{1F31E}"@,
        ThemeMode::Dark => "\u{1F319}"@,
        ThemeMode::System => "\u{1F5A5}\u{FE0F}"@,
    }
}

/// Tracks the theme mode in use.
#[derive(Debug, Clone)]
pub struct ThemeManager {
    pub current_mode: ThemeMode,
}

impl ThemeManager {
    /// A manager starting from the configured mode.
    pub fn new(config: &ThemeConfig) -> (r: Self)
        ensures
            r.current_mode == config.mode,
    {
        ThemeManager { current_mode: config.mode }
    }

    /// The mode in use.
    pub fn get_current_mode(&self) -> (r: &ThemeMode)
        ensures
            *r == self.current_mode,
    {
        &self.current_mode
    }

    /// Switch to `mode`.
    pub fn set_theme(&mut self, mode: ThemeMode)
        ensures
            final(self).current_mode == mode,
    {
        self.current_mode = mode;
    }

    /// The mode a toggle moves to, given the reported system preference;
    /// the manager switches to it.
    pub fn toggle_theme(&mut self, system_is_dark: bool) -> (r: ThemeMode)
        ensures
            r == toggled_mode_spec(old(self).current_mode, system_is_dark),
            final(self).current_mode == r,
    {
        let new_mode = match self.current_mode {
            ThemeMode::Light => ThemeMode::Dark,
            ThemeMode::Dark => ThemeMode::Light,
            ThemeMode::System => if system_is_dark {
                ThemeMode::Light
            } else {
                ThemeMode::Dark
            },
        };
        self.current_mode = new_mode;
        new_mode
    }

    /// A short identifier for the mode in use, for an icon lookup.
    pub fn get_theme_icon(&self) -> (r: &'static str)
        ensures
            r@ == theme_icon_spec(self.current_mode),
    {
        match self.current_mode {
            ThemeMode::Light => "\u{1F31E}",
            ThemeMode::Dark => "\u{1F319}",
            ThemeMode::System => "\u{1F5A5}\u{FE0F}",
        }
    }

    /// The display name of the mode in use.
    pub fn get_theme_name(&self) -> (r: &'static str)
        ensures
            self.current_mode == ThemeMode::Light ==> r@ == "Light"@,
            self.current_mode == ThemeMode::Dark ==> r@ == "Dark"@,
            self.current_mode == ThemeMode::System ==> r@ == "System"@,
    {
        match self.current_mode {
            ThemeMode::Light => "Light",
            ThemeMode::Dark => "Dark",
            ThemeMode::System => "System",
        }
    }
}

impl Default for ThemeManager {
    fn default() -> (r: Self)
        ensures
            r.current_mode == ThemeMode::System,
    {
        ThemeManager { current_mode: ThemeMode::System }
    }
}

} // verus!
