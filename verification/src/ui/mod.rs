//! What the display needs decided: colours by theme and by load.

pub mod theme;

pub use theme::{ColorScheme, Rgb};
