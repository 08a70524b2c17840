//! The theme vocabulary: which palette the application renders with and
//! the style roles its widgets pick from. The colors themselves, and the
//! drawing, live with the presentation layer; the core only decides which
//! theme a detected system appearance selects.

use vstd::prelude::*;

verus! {

/// The palette the application renders with.
#[derive(Clone, Copy, Debug, PartialEq, Eq, Structural)]
pub enum AppTheme {
    Light,
    Dark,
}

/// What the platform reports about the system-wide appearance.
#[derive(Clone, Copy, Debug, PartialEq, Eq, Structural)]
pub enum SystemAppearance {
    Dark,
    Light,
    /// The platform reported no preference (or the probe failed).
    Unspecified,
}

/// The theme a detected appearance selects; without a clear preference
/// the dark palette is used.
pub open spec fn theme_of_appearance(m: SystemAppearance) -> AppTheme {
    match m {
        SystemAppearance::Dark => AppTheme::Dark,
        SystemAppearance::Light => AppTheme::Light,
        SystemAppearance::Unspecified => AppTheme::Dark,
    }
}

impl AppTheme {
    /// Selects the theme for a detected system appearance.
    pub fn from_appearance(m: SystemAppearance) -> (t: AppTheme)
        ensures
            t == theme_of_appearance(m),
    {
        match m {
            SystemAppearance::Dark => AppTheme::Dark,
            SystemAppearance::Light => AppTheme::Light,
            SystemAppearance::Unspecified => AppTheme::Dark,
        }
    }
}

impl Default for AppTheme {
    /// The light palette, until the system appearance says otherwise.
    fn default() -> (t: AppTheme)
        ensures
            t == AppTheme::Light,
    {
        AppTheme::Light
    }
}

/// The role a piece of text plays, which the presentation layer maps to a
/// color of the current palette.
#[derive(Clone, Copy, Debug, PartialEq, Eq, Structural)]
pub enum TextStyle {
    Default,
    Disabled,
    Accent,
}

impl Default for TextStyle {
    fn default() -> (s: TextStyle)
        ensures
            s == TextStyle::Default,
    {
        TextStyle::Default
    }
}

/// The role a container plays.
#[derive(Clone, Copy, Debug, PartialEq, Eq, Structural)]
pub enum ContainerStyle {
    Default,
    Card,
    StatusDisplay,
    StatusDisplayRunning,
    ReadOnly,
}

impl Default for ContainerStyle {
    fn default() -> (s: ContainerStyle)
        ensures
            s == ContainerStyle::Default,
    {
        ContainerStyle::Default
    }
}

/// The role a button plays.
#[derive(Clone, Copy, Debug, PartialEq, Eq, Structural)]
pub enum ButtonStyle {
    Primary,
}

impl Default for ButtonStyle {
    fn default() -> (s: ButtonStyle)
        ensures
            s == ButtonStyle::Primary,
    {
        ButtonStyle::Primary
    }
}

} // verus!
