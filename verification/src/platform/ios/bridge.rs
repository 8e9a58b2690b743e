//! The bridge between a UIKit host and the active window.
//!
//! The host registers the window it presents, attaches its `CAMetalLayer` once the
//! application has launched, and forwards every `UITouch` as a mouse event (the left
//! button, one click).

use vstd::prelude::*;
use crate::platform::ios::window::{DispatchEventResult, IosWindowState};

verus! {

/// A position in pixels, each `f32` coordinate held as its IEEE-754 bit pattern.
#[derive(Clone, Copy, Debug, PartialEq, Eq, Structural)]
pub struct PointBits {
    pub x: u32,
    pub y: u32,
}

/// The input a touch becomes. The button is always the left one, and no modifier is held.
#[derive(Clone, Copy, Debug, PartialEq, Eq, Structural)]
pub enum PlatformInput {
    /// Left button pressed: one click, never a window-activating first click.
    MouseDown { position: PointBits, click_count: usize, first_mouse: bool },
    /// Pointer moved with the left button held.
    MouseMove { position: PointBits },
    /// Left button released: one click.
    MouseUp { position: PointBits, click_count: usize },
}

/// The input for a touch at `position` in `phase` (0 began, 1 moved, anything else —
/// 2 ended, 3 cancelled — released).
pub open spec fn touch_input_spec(position: PointBits, phase: u8) -> PlatformInput {
    if phase == 0 {
        PlatformInput::MouseDown { position, click_count: 1, first_mouse: false }
    } else if phase == 1 {
        PlatformInput::MouseMove { position }
    } else {
        PlatformInput::MouseUp { position, click_count: 1 }
    }
}

/// The input for a touch at `position` in `phase`.
pub fn touch_input(position: PointBits, phase: u8) -> (input: PlatformInput)
    ensures
        input == touch_input_spec(position, phase),
{
    match phase {
        0 => PlatformInput::MouseDown { position, click_count: 1, first_mouse: false },
        1 => PlatformInput::MouseMove { position },
        _ => PlatformInput::MouseUp { position, click_count: 1 },
    }
}

/// Register the freshly opened window as the active one (replacing any earlier one).
pub fn ios_store_active_window<F>(active: &mut Option<IosWindowState<F>>, win: IosWindowState<F>)
    ensures
        *final(active) == Some(win),
{
    *active = Some(win);
}

/// Set the `CAMetalLayer` pointer on the active window; nothing happens when no window
/// is active.
pub fn ios_set_metal_layer_ptr<F>(active: &mut Option<IosWindowState<F>>, ptr: usize)
    ensures
        *old(active) is None ==> *final(active) is None,
        *old(active) matches Some(w) ==> *final(active) matches Some(v) && v.metal_layer_spec()
            == Some(ptr) && v.same_but_layer(&w),
{
    match active {
        Some(win) => win.set_host_metal_layer_ptr(ptr),
        None => {},
    }
}

/// Inject a UIKit touch into the active window as the input of [`touch_input_spec`].
/// Nothing happens when no window is active or it has no input callback.
pub fn ios_inject_touch<F>(active: &mut Option<IosWindowState<F>>, x: u32, y: u32, phase: u8) where
    F: FnMut(PlatformInput) -> DispatchEventResult,
    requires
        *old(active) matches Some(w) ==> (w.input_callback_spec() matches Some(cb) ==> cb.requires(
            (touch_input_spec(PointBits { x, y }, phase),),
        )),
    ensures
        *old(active) is None ==> *final(active) is None,
        *old(active) matches Some(w) ==> *final(active) matches Some(v) && {
            &&& v.handle_spec() == w.handle_spec()
            &&& v.bounds_spec() == w.bounds_spec()
            &&& v.title_spec() == w.title_spec()
            &&& v.edited_spec() == w.edited_spec()
            &&& v.fullscreen_spec() == w.fullscreen_spec()
            &&& v.metal_layer_spec() == w.metal_layer_spec()
            &&& (v.input_callback_spec() is Some == w.input_callback_spec() is Some)
            &&& (w.input_callback_spec() matches Some(cb) ==> exists|r: DispatchEventResult|
                cb.ensures((touch_input_spec(PointBits { x, y }, phase),), r))
        },
{
    let event = touch_input(PointBits { x, y }, phase);
    match active {
        Some(win) => {
            let _ = win.inject_platform_input(event);
        },
        None => {},
    }
}

/// A touch becomes a left-button event at the touch position: a one-click press when it
/// begins (phase 0), a move when it moves (phase 1), and a one-click release in every
/// other phase (ended, cancelled or unknown).
pub proof fn lemma_touch_input(position: PointBits, phase: u8)
    ensures
        phase == 0 ==> touch_input_spec(position, phase) == (PlatformInput::MouseDown {
            position,
            click_count: 1,
            first_mouse: false,
        }),
        phase == 1 ==> touch_input_spec(position, phase) == (PlatformInput::MouseMove {
            position,
        }),
        phase >= 2 ==> touch_input_spec(position, phase) == (PlatformInput::MouseUp {
            position,
            click_count: 1,
        }),
{
}

} // verus!
