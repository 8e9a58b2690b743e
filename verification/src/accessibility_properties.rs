//! Accessibility metadata for assistive technologies (VoiceOver on iOS).

use vstd::prelude::*;

verus! {

/// Properties attached to a hitbox for platform accessibility snapshots.
#[derive(Clone, Debug, PartialEq, Eq)]
pub struct AccessibilityProperties {
    /// Primary accessibility label.
    pub label: String,
    /// Optional hint describing interaction outcome.
    pub hint: Option<String>,
    /// Raw traits bitmask; matches UIKit `UIAccessibilityTraits` when bridged to iOS.
    pub traits: u64,
}

/// Bit compatible with `UIAccessibilityTraitButton`.
pub const ACCESSIBILITY_TRAIT_BUTTON: u64 = 1;

} // verus!
