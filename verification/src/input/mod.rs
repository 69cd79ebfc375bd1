//! Input capture and injection: key names, keycode tables, hotkeys, the
//! decisions of the capture backends, and injector commands.

pub mod key_names;
pub mod inject;
pub mod macos_keycodes;
pub mod hotkey;
pub mod capture;
pub mod window_keys;

use vstd::prelude::*;

verus! {

/// An input event captured locally while the input is grabbed.
#[allow(inconsistent_fields)]
#[derive(Debug, Clone, PartialEq, Eq)]
pub enum InputEvent {
    HotkeyToggled { grabbed: bool },
    KeyPress { keycode: u8 },
    KeyRelease { keycode: u8 },
    MouseMove { dx: i16, dy: i16 },
    MouseButton { button: u8, pressed: bool },
    Wheel { dx: i8, dy: i8 },
    BackendError(String),
}

/// Raw handles of the Wayland display and surface of the window.
#[derive(Debug, Clone, Copy, PartialEq, Eq, Hash)]
pub struct WaylandHandles {
    pub display: usize,
    pub surface: usize,
}

} // verus!
