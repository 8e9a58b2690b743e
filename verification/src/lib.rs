//! OpenFrame's platform-independent logic: tooltips, glyph borders, the iOS
//! accessibility snapshot, window bookkeeping and the sprite-atlas cache.

pub mod accessibility_properties;
pub mod style_context;
pub mod text;
pub mod elements;
pub mod platform;

pub use accessibility_properties::{AccessibilityProperties, ACCESSIBILITY_TRAIT_BUTTON};
pub use style_context::RenderStyle;
