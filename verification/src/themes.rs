//! Theme data and the theme manager.
//!
//! Applying a theme to a live browser is the shell's business; the
//! manager holds the currently loaded theme and its customizations.

use vstd::prelude::*;

verus! {

/// Colour palette of a theme.
#[derive(Debug, Clone)]
pub struct ThemeColors {
    pub primary: String,
    pub secondary: String,
    pub background: String,
    pub text: String,
}

/// Font choices of a theme.
#[derive(Debug, Clone)]
pub struct ThemeFonts {
    pub main: String,
    pub headings: String,
    pub size: u8,
}

/// Operator overrides applied on top of a loaded theme.
#[derive(Debug, Clone)]
pub struct ThemeCustomization {
    pub colors: ThemeColors,
    pub fonts: ThemeFonts,
    pub mascots: Vec<String>,
    pub animations: bool,
}

/// A complete theme.
#[derive(Debug, Clone)]
pub struct KawaiiTheme {
    pub name: String,
    pub colors: ThemeColors,
    pub fonts: ThemeFonts,
    pub mascots: Vec<String>,
    pub animations: bool,
}

/// Holds the theme a session currently uses.
pub struct ThemeManager {
    current: Option<KawaiiTheme>,
}

impl ThemeManager {
    /// The currently loaded theme, if any.
    pub closed spec fn current_spec(&self) -> Option<KawaiiTheme> {
        self.current
    }

    /// Creates a manager with no theme loaded.
    pub fn new() -> (r: ThemeManager)
        ensures
            r.current_spec() is None,
    {
        ThemeManager { current: None }
    }

    /// Loads `theme`, replacing whatever was loaded before.
    pub fn load_theme(&mut self, theme: KawaiiTheme)
        ensures
            final(self).current_spec() == Some(theme),
    {
        self.current = Some(theme);
    }

    /// Overwrites the loaded theme's colours, fonts, mascots and
    /// animation flag from `customizations`. Returns whether a theme was
    /// loaded; with none, nothing changes.
    pub fn apply_customizations(&mut self, customizations: ThemeCustomization) -> (applied: bool)
        ensures
            applied == (old(self).current_spec() is Some),
            (match old(self).current_spec() {
                Some(t) => final(self).current_spec() == Some(
                    (KawaiiTheme {
                        name: t.name,
                        colors: customizations.colors,
                        fonts: customizations.fonts,
                        mascots: customizations.mascots,
                        animations: customizations.animations,
                    }),
                ),
                None => final(self).current_spec() is None,
            }),
    {
        match &self.current {
            Some(t) => {
                let name = t.name.clone();
                self.current = Some(
                    KawaiiTheme {
                        name,
                        colors: customizations.colors,
                        fonts: customizations.fonts,
                        mascots: customizations.mascots,
                        animations: customizations.animations,
                    },
                );
                true
            },
            None => false,
        }
    }

    /// The name of the loaded theme, or nothing when none is loaded.
    pub fn export_theme(&self) -> (r: Option<String>)
        ensures
            (match self.current_spec() {
                Some(t) => r matches Some(name) && name@ == t.name@,
                None => r is None,
            }),
    {
        match &self.current {
            Some(t) => Some(t.name.clone()),
            None => None,
        }
    }
}

} // verus!
