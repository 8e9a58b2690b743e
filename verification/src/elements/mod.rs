//! Reusable elements: the glyph border and the tooltip.

pub mod glyph_border;
pub mod tooltip;
