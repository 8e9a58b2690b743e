//! The iOS software keyboard layout.

use vstd::prelude::*;

verus! {

/// The layout of the iOS software keyboard.
pub struct IosKeyboardLayout;

impl IosKeyboardLayout {
    /// The layout's identifier.
    pub fn id(&self) -> (s: &'static str)
        ensures
            s@ == "openframe.keyboard.ios"@,
    {
        "openframe.keyboard.ios"
    }

    /// The layout's display name.
    pub fn name(&self) -> (s: &'static str)
        ensures
            s@ == "iOS Software Keyboard"@,
    {
        "iOS Software Keyboard"
    }
}

} // verus!
