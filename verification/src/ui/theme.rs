//! The colour palette of each theme, and the colour a load is shown in.

use vstd::prelude::*;
use crate::models::config::Theme;
use crate::models::quantity::Percentage;

verus! {

/// An opaque colour by its red, green and blue parts.
#[derive(Debug, Clone, Copy, PartialEq, Eq, Structural)]
pub struct Rgb {
    pub r: u8,
    pub g: u8,
    pub b: u8,
}

/// The colours one theme draws with.
#[derive(Debug, Clone, Copy, PartialEq, Eq, Structural)]
pub struct ColorScheme {
    pub background: Rgb,
    pub surface: Rgb,
    pub primary: Rgb,
    pub secondary: Rgb,
    pub text: Rgb,
    pub text_dim: Rgb,
    pub success: Rgb,
    pub warning: Rgb,
    pub error: Rgb,
}

/// How far a window under the pointer is made more opaque, in thousandths.
pub const HOVER_BOOST_PERMILLE: u16 = 300;

/// Full opacity, in thousandths.
pub const OPAQUE_PERMILLE: u16 = 1000;

impl ColorScheme {
    pub open spec fn spec_dark() -> ColorScheme {
        ColorScheme {
            background: Rgb { r: 15, g: 15, b: 20 },
            surface: Rgb { r: 25, g: 25, b: 30 },
            primary: Rgb { r: 100, g: 150, b: 255 },
            secondary: Rgb { r: 150, g: 100, b: 255 },
            text: Rgb { r: 240, g: 240, b: 245 },
            text_dim: Rgb { r: 160, g: 160, b: 170 },
            success: Rgb { r: 80, g: 200, b: 120 },
            warning: Rgb { r: 255, g: 180, b: 50 },
            error: Rgb { r: 255, g: 100, b: 100 },
        }
    }

    pub open spec fn spec_light() -> ColorScheme {
        ColorScheme {
            background: Rgb { r: 250, g: 250, b: 255 },
            surface: Rgb { r: 240, g: 240, b: 245 },
            primary: Rgb { r: 50, g: 100, b: 200 },
            secondary: Rgb { r: 100, g: 50, b: 200 },
            text: Rgb { r: 20, g: 20, b: 25 },
            text_dim: Rgb { r: 100, g: 100, b: 110 },
            success: Rgb { r: 40, g: 150, b: 80 },
            warning: Rgb { r: 200, g: 130, b: 20 },
            error: Rgb { r: 200, g: 50, b: 50 },
        }
    }

    pub open spec fn spec_catppuccin() -> ColorScheme {
        ColorScheme {
            background: Rgb { r: 30, g: 30, b: 46 },
            surface: Rgb { r: 49, g: 50, b: 68 },
            primary: Rgb { r: 137, g: 180, b: 250 },
            secondary: Rgb { r: 203, g: 166, b: 247 },
            text: Rgb { r: 205, g: 214, b: 244 },
            text_dim: Rgb { r: 147, g: 153, b: 178 },
            success: Rgb { r: 166, g: 227, b: 161 },
            warning: Rgb { r: 249, g: 226, b: 175 },
            error: Rgb { r: 243, g: 139, b: 168 },
        }
    }

    /// The palette of `theme`.
    pub open spec fn spec_from_theme(theme: Theme) -> ColorScheme {
        match theme {
            Theme::Dark => Self::spec_dark(),
            Theme::Light => Self::spec_light(),
            Theme::Catppuccin => Self::spec_catppuccin(),
        }
    }

    /// The colour for a load: `error` above `high` percent, `warning` above
    /// `raised` percent, `success` otherwise.
    pub open spec fn load_color(self, usage: Percentage, raised: u64, high: u64) -> Rgb {
        if usage.exceeds(high) {
            self.error
        } else if usage.exceeds(raised) {
            self.warning
        } else {
            self.success
        }
    }

    #[verifier::when_used_as_spec(spec_from_theme)]
    pub fn from_theme(theme: Theme) -> (scheme: ColorScheme)
        ensures
            scheme == Self::spec_from_theme(theme),
    {
        match theme {
            Theme::Dark => Self::dark(),
            Theme::Light => Self::light(),
            Theme::Catppuccin => Self::catppuccin(),
        }
    }

    fn dark() -> (scheme: ColorScheme)
        ensures
            scheme == Self::spec_dark(),
    {
        ColorScheme {
            background: Rgb { r: 15, g: 15, b: 20 },
            surface: Rgb { r: 25, g: 25, b: 30 },
            primary: Rgb { r: 100, g: 150, b: 255 },
            secondary: Rgb { r: 150, g: 100, b: 255 },
            text: Rgb { r: 240, g: 240, b: 245 },
            text_dim: Rgb { r: 160, g: 160, b: 170 },
            success: Rgb { r: 80, g: 200, b: 120 },
            warning: Rgb { r: 255, g: 180, b: 50 },
            error: Rgb { r: 255, g: 100, b: 100 },
        }
    }

    fn light() -> (scheme: ColorScheme)
        ensures
            scheme == Self::spec_light(),
    {
        ColorScheme {
            background: Rgb { r: 250, g: 250, b: 255 },
            surface: Rgb { r: 240, g: 240, b: 245 },
            primary: Rgb { r: 50, g: 100, b: 200 },
            secondary: Rgb { r: 100, g: 50, b: 200 },
            text: Rgb { r: 20, g: 20, b: 25 },
            text_dim: Rgb { r: 100, g: 100, b: 110 },
            success: Rgb { r: 40, g: 150, b: 80 },
            warning: Rgb { r: 200, g: 130, b: 20 },
            error: Rgb { r: 200, g: 50, b: 50 },
        }
    }

    fn catppuccin() -> (scheme: ColorScheme)
        ensures
            scheme == Self::spec_catppuccin(),
    {
        ColorScheme {
            background: Rgb { r: 30, g: 30, b: 46 },
            surface: Rgb { r: 49, g: 50, b: 68 },
            primary: Rgb { r: 137, g: 180, b: 250 },
            secondary: Rgb { r: 203, g: 166, b: 247 },
            text: Rgb { r: 205, g: 214, b: 244 },
            text_dim: Rgb { r: 147, g: 153, b: 178 },
            success: Rgb { r: 166, g: 227, b: 161 },
            warning: Rgb { r: 249, g: 226, b: 175 },
            error: Rgb { r: 243, g: 139, b: 168 },
        }
    }

    /// The colour for a processor load: `error` above 80 percent, `warning`
    /// above 50, `success` otherwise.
    pub fn cpu_color(&self, usage: Percentage) -> (color: Rgb)
        ensures
            color == self.load_color(usage, 50, 80),
    {
        if usage.exceeds(80) {
            self.error
        } else if usage.exceeds(50) {
            self.warning
        } else {
            self.success
        }
    }

    /// The colour for a memory load: `error` above 85 percent, `warning`
    /// above 70, `success` otherwise.
    pub fn memory_color(&self, usage: Percentage) -> (color: Rgb)
        ensures
            color == self.load_color(usage, 70, 85),
    {
        if usage.exceeds(85) {
            self.error
        } else if usage.exceeds(70) {
            self.warning
        } else {
            self.success
        }
    }
}

/// The opacity of the window while the pointer is over it: the configured
/// one raised by `HOVER_BOOST_PERMILLE`, and no more than fully opaque.
pub fn hover_transparency(transparency_permille: u16) -> (raised: u16)
    ensures
        raised == if transparency_permille + HOVER_BOOST_PERMILLE > OPAQUE_PERMILLE {
            OPAQUE_PERMILLE
        } else {
            (transparency_permille + HOVER_BOOST_PERMILLE) as u16
        },
{
    if transparency_permille > OPAQUE_PERMILLE - HOVER_BOOST_PERMILLE {
        OPAQUE_PERMILLE
    } else {
        transparency_permille + HOVER_BOOST_PERMILLE
    }
}

} // verus!
