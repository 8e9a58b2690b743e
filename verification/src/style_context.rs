//! The application-wide render style.

use vstd::prelude::*;

verus! {

/// The active render style for the application window.
///
/// `Custom` is set when a registered glyph style is active; `Default` returns to the
/// standard appearance.
#[derive(Clone, Copy, Debug, PartialEq, Eq, Structural)]
pub enum RenderStyle {
    /// Standard GPU-rendered appearance (default).
    Default,
    /// A registered glyph style is active.
    Custom,
}

impl Default for RenderStyle {
    fn default() -> (style: Self)
        ensures
            style == RenderStyle::Default,
    {
        RenderStyle::Default
    }
}

} // verus!
