//! The configuration of a preview: what the preference store may hold, the
//! defaults that stand in for what it does not, and the resolved value that
//! every renderer reads.

use crate::registry::{select_theme, selected_theme, GrammarRegistry};
use syntect::highlighting::{Theme, ThemeSet};
use vstd::prelude::*;
use vstd::string::*;

verus! {

/// The theme used where the preferences name none.
pub const DEFAULT_THEME_NAME: &'static str = "Xcode-like";

/// The font family used where the preferences name none.
pub const DEFAULT_FONT_FAMILY: &'static str = "Menlo, monospace";

/// The font size, in pixels, used where the preferences give none.
pub const DEFAULT_FONT_SIZE: &'static str = "11";

/// The preference key of the font size.
pub const FONT_SIZE: &'static str = "fontSize";

/// The preference key of the font family.
pub const FONT_FAMILY: &'static str = "fontFamily";

/// The preference key of the theme name.
pub const THEME: &'static str = "theme";

/// The preference key of the directory with additional themes.
pub const THEME_DIR: &'static str = "themeDirectory";

/// The preference key of the directory with additional grammars.
pub const SYNTAX_DIR: &'static str = "syntaxDirectory";

/// What the preference store holds under the five keys. A key that is absent,
/// or whose value is not a string, is `None`.
#[derive(Clone, Debug)]
pub struct Preferences {
    pub font_size: Option<String>,
    pub font_family: Option<String>,
    pub theme: Option<String>,
    pub theme_directory: Option<String>,
    pub syntax_directory: Option<String>,
}

/// The preferences with every default filled in.
#[derive(Clone, Debug)]
pub struct Settings {
    pub font_size: String,
    pub font_family: String,
    pub theme_name: String,
    pub theme_directory: Option<String>,
    pub syntax_directory: Option<String>,
}

/// What every renderer reads: the font, the grammars and the theme.
#[derive(Debug)]
pub struct Config {
    pub font_size: String,
    pub font_family: String,
    pub syntax_set: GrammarRegistry,
    pub theme: Theme,
}

/// A preference value, or `fallback` where there is none.
pub open spec fn value_or(value: Option<String>, fallback: Seq<char>) -> Seq<char> {
    match value {
        Some(text) => text@,
        None => fallback,
    }
}

fn or_default(value: Option<String>, fallback: &str) -> (text: String)
    ensures
        text@ == value_or(value, fallback@),
{
    match value {
        Some(text) => text,
        None => String::from_str(fallback),
    }
}

impl Preferences {
    /// Preferences in which every key is absent.
    pub fn empty() -> (prefs: Preferences)
        ensures
            prefs.font_size is None,
            prefs.font_family is None,
            prefs.theme is None,
            prefs.theme_directory is None,
            prefs.syntax_directory is None,
    {
        Preferences {
            font_size: None,
            font_family: None,
            theme: None,
            theme_directory: None,
            syntax_directory: None,
        }
    }

    /// Fills in the defaults. Font size, font family and theme name each have
    /// one; the two directories stay absent where they are not set.
    pub fn resolve(self) -> (settings: Settings)
        ensures
            settings.font_size@ == value_or(self.font_size, DEFAULT_FONT_SIZE@),
            settings.font_family@ == value_or(self.font_family, DEFAULT_FONT_FAMILY@),
            settings.theme_name@ == value_or(self.theme, DEFAULT_THEME_NAME@),
            settings.theme_directory == self.theme_directory,
            settings.syntax_directory == self.syntax_directory,
    {
        Settings {
            font_size: or_default(self.font_size, DEFAULT_FONT_SIZE),
            font_family: or_default(self.font_family, DEFAULT_FONT_FAMILY),
            theme_name: or_default(self.theme, DEFAULT_THEME_NAME),
            theme_directory: self.theme_directory,
            syntax_directory: self.syntax_directory,
        }
    }
}

/// Builds the configuration of a preview from the resolved settings and the
/// loaded collections. The theme is the one that the settings name, or
/// `bundled` where the collection holds none of that name.
pub fn get_settings(
    settings: Settings,
    theme_set: &ThemeSet,
    syntax_set: GrammarRegistry,
    bundled: Theme,
) -> (conf: Config)
    ensures
        conf.font_size@ == settings.font_size@,
        conf.font_family@ == settings.font_family@,
        conf.syntax_set@ == syntax_set@,
        conf.theme == selected_theme(*theme_set, settings.theme_name@, bundled),
{
    let theme = select_theme(theme_set, settings.theme_name.as_str(), bundled);
    Config {
        font_size: settings.font_size,
        font_family: settings.font_family,
        syntax_set,
        theme,
    }
}

} // verus!
