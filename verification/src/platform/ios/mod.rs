//! The UIKit + Metal backend's bookkeeping: the VoiceOver snapshot, the embedding
//! bridge, the window state, the display and the sprite atlas.

pub mod accessibility;
pub mod bridge;
pub mod display;
pub mod keyboard;
pub mod window;
