//! The user's settings and their defaults.
//!
//! Fractions are kept as whole numbers of a smaller unit: the refresh
//! interval in milliseconds, the transparency in thousandths.

use vstd::prelude::*;
use vstd::string::StringExecFns;

verus! {

/// Where the window sits on screen, in whole points from the top left.
#[derive(Debug, Clone, Copy, PartialEq, Eq, Structural)]
pub struct WindowPosition {
    pub x: i32,
    pub y: i32,
}

impl Default for WindowPosition {
    fn default() -> (position: WindowPosition)
        ensures
            position == (WindowPosition { x: 100, y: 100 }),
    {
        WindowPosition { x: 100, y: 100 }
    }
}

/// The named colour palettes.
#[derive(Debug, Clone, Copy, PartialEq, Eq, Structural)]
pub enum Theme {
    Dark,
    Light,
    Catppuccin,
}

impl Default for Theme {
    fn default() -> (theme: Theme)
        ensures
            theme == Theme::Dark,
    {
        Theme::Dark
    }
}

impl Theme {
    /// The name a theme goes by in a settings file: its own, in lower case.
    pub open spec fn spec_tag(self) -> Seq<char> {
        match self {
            Theme::Dark => seq!['d', 'a', 'r', 'k'],
            Theme::Light => seq!['l', 'i', 'g', 'h', 't'],
            Theme::Catppuccin => seq!['c', 'a', 't', 'p', 'p', 'u', 'c', 'c', 'i', 'n'],
        }
    }

    /// The theme that goes by `tag`, if there is one.
    pub open spec fn spec_from_tag(tag: Seq<char>) -> Option<Theme> {
        if tag == Theme::Dark.spec_tag() {
            Some(Theme::Dark)
        } else if tag == Theme::Light.spec_tag() {
            Some(Theme::Light)
        } else if tag == Theme::Catppuccin.spec_tag() {
            Some(Theme::Catppuccin)
        } else {
            None
        }
    }

    /// The name a theme goes by in a settings file.
    pub fn tag(&self) -> (tag: &'static str)
        ensures
            tag@ == self.spec_tag(),
    {
        proof {
            reveal_strlit("dark");
            reveal_strlit("light");
            reveal_strlit("catppuccin");
        }
        let tag = match self {
            Theme::Dark => "dark",
            Theme::Light => "light",
            Theme::Catppuccin => "catppuccin",
        };
        proof {
            assert(tag@ =~= self.spec_tag());
        }
        tag
    }

    /// Reads a theme's name back. Any other text names no theme.
    pub fn from_tag(tag: &str) -> (theme: Option<Theme>)
        ensures
            theme == Theme::spec_from_tag(tag@),
    {
        let given = String::from_str(tag);
        if given == String::from_str(Theme::Dark.tag()) {
            Some(Theme::Dark)
        } else if given == String::from_str(Theme::Light.tag()) {
            Some(Theme::Light)
        } else if given == String::from_str(Theme::Catppuccin.tag()) {
            Some(Theme::Catppuccin)
        } else {
            None
        }
    }
}

/// The settings a user can change, kept from one run to the next.
#[derive(Debug, Clone, Copy, PartialEq, Eq, Structural)]
pub struct UserConfig {
    pub window_position: WindowPosition,
    /// Opacity of the window in thousandths, from 0 to 1000.
    pub transparency_permille: u16,
    /// Time between two samples in milliseconds.
    pub refresh_interval_millis: u64,
    pub always_on_top: bool,
    pub show_cpu_per_core: bool,
    pub theme: Theme,
}

impl UserConfig {
    /// The settings of a first run.
    pub open spec fn spec_default() -> UserConfig {
        UserConfig {
            window_position: WindowPosition { x: 100, y: 100 },
            transparency_permille: 800,
            refresh_interval_millis: 1000,
            always_on_top: true,
            show_cpu_per_core: false,
            theme: Theme::Dark,
        }
    }
}

impl Default for UserConfig {
    fn default() -> (config: UserConfig)
        ensures
            config == UserConfig::spec_default(),
    {
        UserConfig {
            window_position: WindowPosition::default(),
            transparency_permille: 800,
            refresh_interval_millis: 1000,
            always_on_top: true,
            show_cpu_per_core: false,
            theme: Theme::default(),
        }
    }
}

/// Every theme is read back from its own name.
pub proof fn lemma_tag_round_trip(theme: Theme)
    ensures
        Theme::spec_from_tag(theme.spec_tag()) == Some(theme),
{
    assert(Theme::Dark.spec_tag().len() == 4);
    assert(Theme::Light.spec_tag().len() == 5);
    assert(Theme::Catppuccin.spec_tag().len() == 10);
}

} // verus!
