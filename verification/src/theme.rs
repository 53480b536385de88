//! The two colour themes of the application.

use vstd::prelude::*;

verus! {

/// The theme of the application.
#[derive(Debug, Clone, Copy, PartialEq, Eq, Structural)]
pub enum AppTheme {
    Dark,
    Light,
}

/// The other theme.
pub open spec fn spec_toggle(theme: AppTheme) -> AppTheme {
    match theme {
        AppTheme::Dark => AppTheme::Light,
        AppTheme::Light => AppTheme::Dark,
    }
}

impl AppTheme {
    /// The other theme.
    pub fn toggle(self) -> (other: AppTheme)
        ensures
            other == spec_toggle(self),
            other != self,
    {
        match self {
            AppTheme::Dark => AppTheme::Light,
            AppTheme::Light => AppTheme::Dark,
        }
    }

    /// Whether this is the dark theme.
    pub fn is_dark(self) -> (b: bool)
        ensures
            b == (self is Dark),
    {
        match self {
            AppTheme::Dark => true,
            AppTheme::Light => false,
        }
    }

    /// The theme for a setting of the dark-mode switch.
    pub fn for_dark_mode(dark_mode: bool) -> (theme: AppTheme)
        ensures
            (theme is Dark) == dark_mode,
    {
        if dark_mode {
            AppTheme::Dark
        } else {
            AppTheme::Light
        }
    }
}

impl Default for AppTheme {
    /// The application starts in the dark theme.
    fn default() -> (theme: AppTheme)
        ensures
            theme == AppTheme::Dark,
    {
        AppTheme::Dark
    }
}

/// Toggling a theme twice gives the theme back.
pub proof fn lemma_toggle_twice(theme: AppTheme)
    ensures
        spec_toggle(spec_toggle(theme)) == theme,
{
}

} // verus!
