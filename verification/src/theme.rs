//! Theme selection for the surrounding user interfaces.

use vstd::prelude::*;
use crate::language::Language;

verus! {

/// Available theme modes.
#[derive(Debug, Clone, Copy, PartialEq, Eq, Structural)]
pub enum ThemeMode {
    Light,
    Dark,
    /// System preference (future).
    Auto,
}

impl ThemeMode {
    /// The label shown on the theme toggle.
    pub fn label(&self) -> (r: &'static str)
        ensures
            r@ == match self {
                ThemeMode::Light => "🌞 Light"@,
                ThemeMode::Dark => "🌙 Dark"@,
                ThemeMode::Auto => "🔄 Auto"@,
            },
    {
        match self {
            ThemeMode::Light => "🌞 Light",
            ThemeMode::Dark => "🌙 Dark",
            ThemeMode::Auto => "🔄 Auto",
        }
    }

    /// The mode the toggle cycles to next: Light and Dark alternate, and Auto
    /// leaves automatic mode toward Light.
    pub fn next(&self) -> (r: Self)
        ensures
            r == match self {
                ThemeMode::Light => ThemeMode::Dark,
                ThemeMode::Dark => ThemeMode::Light,
                ThemeMode::Auto => ThemeMode::Light,
            },
    {
        match self {
            ThemeMode::Light => ThemeMode::Dark,
            ThemeMode::Dark => ThemeMode::Light,
            ThemeMode::Auto => ThemeMode::Light,
        }
    }
}

impl Default for ThemeMode {
    /// The default theme is dark, suiting a measurement environment.
    fn default() -> (r: Self)
        ensures
            r == ThemeMode::Dark,
    {
        ThemeMode::Dark
    }
}

/// Theme configuration (also carries the interface language).
#[derive(Debug, Clone, Copy, PartialEq, Eq, Structural)]
pub struct ThemeConfig {
    pub mode: ThemeMode,
    pub language: Language,
}

impl Default for ThemeConfig {
    /// The default configuration: dark theme, system language.
    fn default() -> (r: Self)
        ensures
            r == (ThemeConfig { mode: ThemeMode::Dark, language: Language::Auto }),
    {
        ThemeConfig { mode: ThemeMode::Dark, language: Language::Auto }
    }
}

} // verus!
