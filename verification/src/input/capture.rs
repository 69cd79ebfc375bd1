//! The decisions of the input capture backends, apart from the platform
//! calls: when the hotkey toggles the grab, which captured events are passed
//! on and as what, when the pointer is warped back, and how a Wayland
//! pointer constraint is negotiated.

use vstd::prelude::*;
use crate::input::InputEvent;
use crate::input::hotkey::{RELEVANT_FLAGS, RELEVANT_MODS};

verus! {

// ---------------------------------------------------------------------------
// X11
// ---------------------------------------------------------------------------

/// Pointer bookkeeping while the X11 input is grabbed: the pointer is kept
/// near the centre of the screen and warped back when it strays beyond a
/// quarter of the screen.
#[derive(Debug, Clone, Copy, PartialEq, Eq)]
pub struct Pointer {
    pub center_x: i16,
    pub center_y: i16,
    pub edge_x: i16,
    pub edge_y: i16,
    pub last_x: i16,
    pub last_y: i16,
    pub pending_warps: u32,
}

/// The pointer state for a screen of `width` by `height` pixels: centred,
/// warped back beyond a quarter of the screen, no warp outstanding.
pub open spec fn pointer_for(width: u16, height: u16) -> Pointer {
    Pointer {
        center_x: (width / 2) as i16,
        center_y: (height / 2) as i16,
        edge_x: (width / 4) as i16,
        edge_y: (height / 4) as i16,
        last_x: (width / 2) as i16,
        last_y: (height / 2) as i16,
        pending_warps: 0,
    }
}

impl Pointer {
    /// The pointer state for a screen of `width` by `height` pixels.
    pub fn new(width: u16, height: u16) -> (p: Self)
        ensures
            p == pointer_for(width, height),
            p.center_x == width / 2,
            p.center_y == height / 2,
            p.edge_x == width / 4,
            p.edge_y == height / 4,
    {
        let center_x = (width / 2) as i16;
        let center_y = (height / 2) as i16;
        Pointer {
            center_x,
            center_y,
            edge_x: (width / 4) as i16,
            edge_y: (height / 4) as i16,
            last_x: center_x,
            last_y: center_y,
            pending_warps: 0,
        }
    }
}

/// An X11 event as the capture loop reads it.
#[derive(Debug, Clone, Copy, PartialEq, Eq)]
pub enum X11Event {
    KeyPress { detail: u8, state: u16 },
    KeyRelease { detail: u8 },
    Motion { x: i16, y: i16 },
    ButtonPress { detail: u8 },
    ButtonRelease { detail: u8 },
    Other,
}

/// A change of the X11 grab.
#[derive(Debug, Clone, Copy, PartialEq, Eq, Structural)]
pub enum GrabChange {
    Keep,
    /// Grab keyboard and pointer and hide the cursor.
    Grab,
    /// Show the cursor and release keyboard and pointer.
    Ungrab,
}

/// What the X11 capture loop does after an event: send `emit` on, change
/// the grab, and then warp the pointer to the centre of the screen.
#[derive(Debug, Clone, PartialEq, Eq)]
pub struct X11Step {
    pub emit: Option<InputEvent>,
    pub grab: GrabChange,
    pub warp: bool,
}

/// The X11 capture state: the hotkey, whether the input is grabbed, and the
/// pointer bookkeeping.
#[derive(Debug, Clone, Copy, PartialEq, Eq)]
pub struct X11Capture {
    pub modifiers: u16,
    pub keycode: u8,
    pub grabbed: bool,
    pub pointer: Pointer,
}

/// A motion event at the centre of the screen is the echo of a warp that is
/// still outstanding.
pub open spec fn is_warp_echo(p: Pointer, x: i16, y: i16) -> bool {
    p.pending_warps > 0 && x == p.center_x && y == p.center_y
}

/// The differences that a motion event makes fit the 16-bit arithmetic of
/// the capture loop.
pub open spec fn motion_fits(p: Pointer, x: i16, y: i16) -> bool {
    ||| is_warp_echo(p, x, y)
    ||| {
        &&& -32768 <= x - p.last_x <= 32767
        &&& -32768 <= y - p.last_y <= 32767
        &&& -32767 <= x - p.center_x <= 32767
        &&& -32767 <= y - p.center_y <= 32767
    }
}

/// Absolute value.
pub open spec fn abs(v: int) -> int {
    if v < 0 {
        -v
    } else {
        v
    }
}

/// The event that a pressed X11 button gives: buttons 4 to 7 are the wheel
/// (up, down, left, right), others are mouse buttons.
pub open spec fn x11_button_press(b: u8) -> InputEvent {
    if b == 4 {
        InputEvent::Wheel { dx: 0, dy: -1i8 }
    } else if b == 5 {
        InputEvent::Wheel { dx: 0, dy: 1 }
    } else if b == 6 {
        InputEvent::Wheel { dx: -1i8, dy: 0 }
    } else if b == 7 {
        InputEvent::Wheel { dx: 1, dy: 0 }
    } else {
        InputEvent::MouseButton { button: b, pressed: true }
    }
}

/// Nothing happens.
pub open spec fn quiet_step() -> X11Step {
    X11Step { emit: None, grab: GrabChange::Keep, warp: false }
}

/// The next X11 capture state and the step taken for an event.
pub open spec fn x11_next(s: X11Capture, ev: X11Event) -> (X11Capture, X11Step) {
    match ev {
        X11Event::KeyPress { detail, state } => {
            if detail == s.keycode && state & RELEVANT_MODS == s.modifiers {
                let g = !s.grabbed;
                let p = if g {
                    Pointer { pending_warps: (s.pointer.pending_warps + 1) as u32, ..s.pointer }
                } else {
                    s.pointer
                };
                (
                    X11Capture { grabbed: g, pointer: p, ..s },
                    X11Step {
                        emit: Some(InputEvent::HotkeyToggled { grabbed: g }),
                        grab: if g { GrabChange::Grab } else { GrabChange::Ungrab },
                        warp: g,
                    },
                )
            } else if s.grabbed {
                (s, X11Step { emit: Some(InputEvent::KeyPress { keycode: detail }), ..quiet_step() })
            } else {
                (s, quiet_step())
            }
        },
        X11Event::KeyRelease { detail } => {
            if s.grabbed {
                (s, X11Step { emit: Some(InputEvent::KeyRelease { keycode: detail }), ..quiet_step() })
            } else {
                (s, quiet_step())
            }
        },
        X11Event::Motion { x, y } => {
            if !s.grabbed {
                (s, quiet_step())
            } else if is_warp_echo(s.pointer, x, y) {
                let p = Pointer {
                    pending_warps: (s.pointer.pending_warps - 1) as u32,
                    last_x: s.pointer.center_x,
                    last_y: s.pointer.center_y,
                    ..s.pointer
                };
                (X11Capture { pointer: p, ..s }, quiet_step())
            } else {
                let dx = (x - s.pointer.last_x) as i16;
                let dy = (y - s.pointer.last_y) as i16;
                let warp = abs(x - s.pointer.center_x) > s.pointer.edge_x || abs(y - s.pointer.center_y)
                    > s.pointer.edge_y;
                let p = Pointer {
                    last_x: x,
                    last_y: y,
                    pending_warps: if warp {
                        (s.pointer.pending_warps + 1) as u32
                    } else {
                        s.pointer.pending_warps
                    },
                    ..s.pointer
                };
                (
                    X11Capture { pointer: p, ..s },
                    X11Step {
                        emit: if dx != 0 || dy != 0 {
                            Some(InputEvent::MouseMove { dx, dy })
                        } else {
                            None
                        },
                        grab: GrabChange::Keep,
                        warp,
                    },
                )
            }
        },
        X11Event::ButtonPress { detail } => {
            if s.grabbed {
                (s, X11Step { emit: Some(x11_button_press(detail)), ..quiet_step() })
            } else {
                (s, quiet_step())
            }
        },
        X11Event::ButtonRelease { detail } => {
            if s.grabbed && !(4 <= detail <= 7) {
                (
                    s,
                    X11Step {
                        emit: Some(InputEvent::MouseButton { button: detail, pressed: false }),
                        ..quiet_step()
                    },
                )
            } else {
                (s, quiet_step())
            }
        },
        X11Event::Other => (s, quiet_step()),
    }
}

/// The event can be handled: the warp counter has room, and a motion
/// event's differences fit 16 bits.
pub open spec fn x11_can_step(s: X11Capture, ev: X11Event) -> bool {
    &&& s.pointer.pending_warps < u32::MAX
    &&& (s.grabbed ==> (ev matches X11Event::Motion { x, y } ==> motion_fits(s.pointer, x, y)))
}

impl X11Capture {
    /// The capture state before any event: not grabbed.
    pub fn new(modifiers: u16, keycode: u8, width: u16, height: u16) -> (c: Self)
        ensures
            c.modifiers == modifiers,
            c.keycode == keycode,
            !c.grabbed,
            c.pointer == pointer_for(width, height),
    {
        let pointer = Pointer::new(width, height);
        X11Capture { modifiers, keycode, grabbed: false, pointer }
    }

    /// Whether `on_event` can take this event.
    pub fn can_step(&self, ev: X11Event) -> (b: bool)
        ensures
            b == x11_can_step(*self, ev),
    {
        if self.pointer.pending_warps == u32::MAX {
            return false;
        }
        match ev {
            X11Event::Motion { x, y } => {
                if !self.grabbed {
                    return true;
                }
                let p = self.pointer;
                if p.pending_warps > 0 && x == p.center_x && y == p.center_y {
                    return true;
                }
                let dx = x as i32 - p.last_x as i32;
                let dy = y as i32 - p.last_y as i32;
                let cx = x as i32 - p.center_x as i32;
                let cy = y as i32 - p.center_y as i32;
                -32768 <= dx && dx <= 32767 && -32768 <= dy && dy <= 32767 && -32767 <= cx && cx
                    <= 32767 && -32767 <= cy && cy <= 32767
            },
            _ => true,
        }
    }

    /// Handle one X11 event: the hotkey toggles the grab (and a new grab
    /// warps the pointer to the centre); while grabbed, keys, pointer
    /// motion, buttons and the wheel are passed on, and a pointer that
    /// strays beyond a quarter of the screen is warped back.
    pub fn on_event(&mut self, ev: X11Event) -> (r: X11Step)
        requires
            x11_can_step(*old(self), ev),
        ensures
            (*final(self), r) == x11_next(*old(self), ev),
    {
        match ev {
            X11Event::KeyPress { detail, state } => {
                if detail == self.keycode && state & RELEVANT_MODS == self.modifiers {
                    let g = !self.grabbed;
                    self.grabbed = g;
                    if g {
                        self.pointer.pending_warps = self.pointer.pending_warps + 1;
                    }
                    X11Step {
                        emit: Some(InputEvent::HotkeyToggled { grabbed: g }),
                        grab: if g { GrabChange::Grab } else { GrabChange::Ungrab },
                        warp: g,
                    }
                } else if self.grabbed {
                    X11Step { emit: Some(InputEvent::KeyPress { keycode: detail }), grab: GrabChange::Keep, warp: false }
                } else {
                    X11Step { emit: None, grab: GrabChange::Keep, warp: false }
                }
            },
            X11Event::KeyRelease { detail } => {
                if self.grabbed {
                    X11Step { emit: Some(InputEvent::KeyRelease { keycode: detail }), grab: GrabChange::Keep, warp: false }
                } else {
                    X11Step { emit: None, grab: GrabChange::Keep, warp: false }
                }
            },
            X11Event::Motion { x, y } => {
                if !self.grabbed {
                    return X11Step { emit: None, grab: GrabChange::Keep, warp: false };
                }
                let p = self.pointer;
                if p.pending_warps > 0 && x == p.center_x && y == p.center_y {
                    self.pointer.pending_warps = p.pending_warps - 1;
                    self.pointer.last_x = p.center_x;
                    self.pointer.last_y = p.center_y;
                    return X11Step { emit: None, grab: GrabChange::Keep, warp: false };
                }
                let dx = x - p.last_x;
                let dy = y - p.last_y;
                self.pointer.last_x = x;
                self.pointer.last_y = y;
                let ox = x - p.center_x;
                let oy = y - p.center_y;
                let dist_x = if ox < 0 { -ox } else { ox };
                let dist_y = if oy < 0 { -oy } else { oy };
                let warp = dist_x > p.edge_x || dist_y > p.edge_y;
                if warp {
                    self.pointer.pending_warps = p.pending_warps + 1;
                }
                X11Step {
                    emit: if dx != 0 || dy != 0 {
                        Some(InputEvent::MouseMove { dx, dy })
                    } else {
                        None
                    },
                    grab: GrabChange::Keep,
                    warp,
                }
            },
            X11Event::ButtonPress { detail } => {
                if !self.grabbed {
                    return X11Step { emit: None, grab: GrabChange::Keep, warp: false };
                }
                let e = match detail {
                    4 => InputEvent::Wheel { dx: 0, dy: -1 },
                    5 => InputEvent::Wheel { dx: 0, dy: 1 },
                    6 => InputEvent::Wheel { dx: -1, dy: 0 },
                    7 => InputEvent::Wheel { dx: 1, dy: 0 },
                    b => InputEvent::MouseButton { button: b, pressed: true },
                };
                X11Step { emit: Some(e), grab: GrabChange::Keep, warp: false }
            },
            X11Event::ButtonRelease { detail } => {
                if self.grabbed && !(4 <= detail && detail <= 7) {
                    X11Step {
                        emit: Some(InputEvent::MouseButton { button: detail, pressed: false }),
                        grab: GrabChange::Keep,
                        warp: false,
                    }
                } else {
                    X11Step { emit: None, grab: GrabChange::Keep, warp: false }
                }
            },
            X11Event::Other => X11Step { emit: None, grab: GrabChange::Keep, warp: false },
        }
    }
}

/// Each warp that the loop asks for is counted, and each echo it sees is
/// taken off the count: after the echo of a warp, the count is back where
/// it was before the warp.
pub proof fn lemma_warp_echo_restores_count(s: X11Capture, x: i16, y: i16)
    requires
        s.grabbed,
        x11_can_step(s, X11Event::Motion { x, y }),
        !is_warp_echo(s.pointer, x, y),
        x11_next(s, X11Event::Motion { x, y }).1.warp,
    ensures
        ({
            let s1 = x11_next(s, X11Event::Motion { x, y }).0;
            let s2 = x11_next(s1, X11Event::Motion { x: s.pointer.center_x, y: s.pointer.center_y }).0;
            &&& s1.pointer.pending_warps == s.pointer.pending_warps + 1
            &&& s2.pointer.pending_warps == s.pointer.pending_warps
            &&& s2.pointer.last_x == s.pointer.center_x
            &&& s2.pointer.last_y == s.pointer.center_y
        }),
{
}

/// Pressing the hotkey twice gives back the grab state it started from,
/// and the first press grabs exactly when the input was free.
pub proof fn lemma_hotkey_toggles(s: X11Capture, state: u16)
    requires
        state & RELEVANT_MODS == s.modifiers,
        s.pointer.pending_warps < u32::MAX - 1,
    ensures
        ({
            let ev = X11Event::KeyPress { detail: s.keycode, state };
            let (s1, r1) = x11_next(s, ev);
            let (s2, r2) = x11_next(s1, ev);
            &&& s1.grabbed == !s.grabbed
            &&& s2.grabbed == s.grabbed
            &&& r1.emit == Some(InputEvent::HotkeyToggled { grabbed: !s.grabbed })
            &&& (r1.grab == GrabChange::Grab <==> !s.grabbed)
            &&& (r2.grab == GrabChange::Grab <==> s.grabbed)
        }),
{
}

/// While the input is free, nothing but the hotkey is passed on.
pub proof fn lemma_free_input_passes_nothing(s: X11Capture, ev: X11Event)
    requires
        !s.grabbed,
        !(ev matches X11Event::KeyPress { detail, state } && detail == s.keycode && state & RELEVANT_MODS
            == s.modifiers),
    ensures
        x11_next(s, ev) == (s, quiet_step()),
{
}

// ---------------------------------------------------------------------------
// macOS
// ---------------------------------------------------------------------------

/// The kind of a macOS event that the event tap sees.
#[derive(Debug, Clone, Copy, PartialEq, Eq, Structural)]
pub enum MacEventKind {
    KeyDown,
    KeyUp,
    LeftMouseDown,
    LeftMouseUp,
    RightMouseDown,
    RightMouseUp,
    OtherMouseDown,
    OtherMouseUp,
    MouseMoved,
    ScrollWheel,
    TapDisabledByTimeout,
    TapDisabledByUserInput,
    Other,
}

/// The integer fields of a macOS event that the tap reads.
#[derive(Debug, Clone, Copy, PartialEq, Eq)]
pub struct MacEventFields {
    pub keycode: i64,
    pub flags: u64,
    pub button_number: i64,
    pub delta_x: i64,
    pub delta_y: i64,
    pub scroll_axis_1: i64,
    pub scroll_axis_2: i64,
}

/// What the tap does with an event: pass `emit` on, and drop the event
/// (keep it from local applications) or let it through.
#[derive(Debug, Clone, PartialEq, Eq)]
pub struct MacTapStep {
    pub emit: Option<InputEvent>,
    pub drop: bool,
}

/// The macOS event tap state: the hotkey and whether the input is grabbed.
#[derive(Debug, Clone, Copy, PartialEq, Eq)]
pub struct MacTap {
    pub flags: u64,
    pub key: u16,
    pub grabbed: bool,
}

/// The event that a grabbed macOS event becomes.
pub open spec fn mac_event(kind: MacEventKind, f: MacEventFields) -> Option<InputEvent> {
    match kind {
        MacEventKind::KeyDown => Some(InputEvent::KeyPress { keycode: f.keycode as u8 }),
        MacEventKind::KeyUp => Some(InputEvent::KeyRelease { keycode: f.keycode as u8 }),
        MacEventKind::LeftMouseDown => Some(InputEvent::MouseButton { button: 1, pressed: true }),
        MacEventKind::LeftMouseUp => Some(InputEvent::MouseButton { button: 1, pressed: false }),
        MacEventKind::RightMouseDown => Some(InputEvent::MouseButton { button: 3, pressed: true }),
        MacEventKind::RightMouseUp => Some(InputEvent::MouseButton { button: 3, pressed: false }),
        MacEventKind::OtherMouseDown => Some(
            InputEvent::MouseButton {
                button: crate::input::hotkey::wire_of_macos_button(f.button_number as u8),
                pressed: true,
            },
        ),
        MacEventKind::OtherMouseUp => Some(
            InputEvent::MouseButton {
                button: crate::input::hotkey::wire_of_macos_button(f.button_number as u8),
                pressed: false,
            },
        ),
        MacEventKind::MouseMoved => Some(
            InputEvent::MouseMove { dx: f.delta_x as i16, dy: f.delta_y as i16 },
        ),
        MacEventKind::ScrollWheel => Some(
            InputEvent::Wheel { dx: f.scroll_axis_2 as i8, dy: f.scroll_axis_1 as i8 },
        ),
        _ => None,
    }
}

/// The next tap state and the step taken for an event.
pub open spec fn mac_next(s: MacTap, kind: MacEventKind, f: MacEventFields) -> (MacTap, MacTapStep) {
    if kind == MacEventKind::TapDisabledByTimeout || kind == MacEventKind::TapDisabledByUserInput {
        (s, MacTapStep { emit: None, drop: false })
    } else if kind == MacEventKind::KeyDown && f.keycode as u16 == s.key && f.flags & RELEVANT_FLAGS
        == s.flags {
        (
            MacTap { grabbed: !s.grabbed, ..s },
            MacTapStep { emit: Some(InputEvent::HotkeyToggled { grabbed: !s.grabbed }), drop: true },
        )
    } else if !s.grabbed {
        (s, MacTapStep { emit: None, drop: false })
    } else {
        (s, MacTapStep { emit: mac_event(kind, f), drop: true })
    }
}

impl MacTap {
    /// The tap state before any event: not grabbed.
    pub fn new(flags: u64, key: u16) -> (t: Self)
        ensures
            t.flags == flags,
            t.key == key,
            !t.grabbed,
    {
        MacTap { flags, key, grabbed: false }
    }

    /// Handle one tapped event: the hotkey toggles the grab and is dropped;
    /// while grabbed, every event is passed on as an input event (the
    /// fields truncated to the event's integer widths) and dropped.
    pub fn on_event(&mut self, kind: MacEventKind, f: MacEventFields) -> (r: MacTapStep)
        ensures
            (*final(self), r) == mac_next(*old(self), kind, f),
    {
        if kind == MacEventKind::TapDisabledByTimeout || kind == MacEventKind::TapDisabledByUserInput {
            return MacTapStep { emit: None, drop: false };
        }
        if kind == MacEventKind::KeyDown && f.keycode as u16 == self.key && f.flags & RELEVANT_FLAGS
            == self.flags {
            let g = !self.grabbed;
            self.grabbed = g;
            return MacTapStep { emit: Some(InputEvent::HotkeyToggled { grabbed: g }), drop: true };
        }
        if !self.grabbed {
            return MacTapStep { emit: None, drop: false };
        }
        let emit = match kind {
            MacEventKind::KeyDown => Some(InputEvent::KeyPress { keycode: f.keycode as u8 }),
            MacEventKind::KeyUp => Some(InputEvent::KeyRelease { keycode: f.keycode as u8 }),
            MacEventKind::LeftMouseDown => Some(InputEvent::MouseButton { button: 1, pressed: true }),
            MacEventKind::LeftMouseUp => Some(InputEvent::MouseButton { button: 1, pressed: false }),
            MacEventKind::RightMouseDown => Some(InputEvent::MouseButton { button: 3, pressed: true }),
            MacEventKind::RightMouseUp => Some(InputEvent::MouseButton { button: 3, pressed: false }),
            MacEventKind::OtherMouseDown => Some(
                InputEvent::MouseButton {
                    button: crate::input::hotkey::macos_button_to_wire(f.button_number as u8),
                    pressed: true,
                },
            ),
            MacEventKind::OtherMouseUp => Some(
                InputEvent::MouseButton {
                    button: crate::input::hotkey::macos_button_to_wire(f.button_number as u8),
                    pressed: false,
                },
            ),
            MacEventKind::MouseMoved => Some(
                InputEvent::MouseMove { dx: f.delta_x as i16, dy: f.delta_y as i16 },
            ),
            MacEventKind::ScrollWheel => Some(
                InputEvent::Wheel { dx: f.scroll_axis_2 as i8, dy: f.scroll_axis_1 as i8 },
            ),
            _ => None,
        };
        MacTapStep { emit, drop: true }
    }
}

// ---------------------------------------------------------------------------
// Wayland
// ---------------------------------------------------------------------------

/// The grab request that the user interface raises and the Wayland loop
/// takes: whether a grab is wanted, and whether that changed since the loop
/// last looked.
#[derive(Debug, Clone, Copy, PartialEq, Eq)]
pub struct GrabSignal {
    grabbed: bool,
    dirty: bool,
}

impl View for GrabSignal {
    type V = (bool, bool);

    closed spec fn view(&self) -> (bool, bool) {
        (self.grabbed, self.dirty)
    }
}

impl Default for GrabSignal {
    fn default() -> (s: Self)
        ensures
            s@ == (false, false),
    {
        GrabSignal { grabbed: false, dirty: false }
    }
}

impl GrabSignal {
    /// Flip the wanted grab and mark it changed; gives the new value.
    pub fn toggle(&mut self) -> (g: bool)
        ensures
            g == !old(self)@.0,
            final(self)@ == (g, true),
    {
        self.grabbed = !self.grabbed;
        self.dirty = true;
        self.grabbed
    }

    /// Whether a grab is wanted.
    pub fn is_grabbed(&self) -> (g: bool)
        ensures
            g == self@.0,
    {
        self.grabbed
    }

    /// The wanted grab if it changed since the last call, and clear the
    /// change.
    pub fn take_dirty(&mut self) -> (r: Option<bool>)
        ensures
            r == (if old(self)@.1 { Some(old(self)@.0) } else { None }),
            final(self)@ == (old(self)@.0, false),
    {
        if self.dirty {
            self.dirty = false;
            Some(self.grabbed)
        } else {
            None
        }
    }
}

/// Ask for the Wayland grab to flip; gives the new wanted state. Where
/// Wayland capture is not built (`wayland` false, as on every system but
/// Linux), nothing changes and no grab is ever reported.
pub fn toggle_wayland_grab(signal: &mut GrabSignal, wayland: bool) -> (g: bool)
    ensures
        wayland ==> g == !old(signal)@.0 && final(signal)@ == (g, true),
        !wayland ==> !g && final(signal)@ == old(signal)@,
{
    if wayland {
        signal.toggle()
    } else {
        false
    }
}

/// Whether the Wayland grab is wanted; never where Wayland capture is not
/// built.
pub fn is_wayland_grabbed(signal: &GrabSignal, wayland: bool) -> (g: bool)
    ensures
        g == (wayland && signal@.0),
{
    wayland && signal.is_grabbed()
}

/// Toggling twice gives back the wanted state, and the loop then sees a
/// change.
pub proof fn lemma_double_toggle(s: (bool, bool), s1: (bool, bool), s2: (bool, bool))
    requires
        s1 == (!s.0, true),
        s2 == (!s1.0, true),
    ensures
        s2 == (s.0, true),
{
}

/// The wire button for a Linux input button code: left, right, middle,
/// side and extra become 1, 3, 2, 8 and 9; others keep their low byte.
pub open spec fn wire_of_linux_button(button: u32) -> u8 {
    if button == 0x110 {
        1
    } else if button == 0x111 {
        3
    } else if button == 0x112 {
        2
    } else if button == 0x113 {
        8
    } else if button == 0x114 {
        9
    } else {
        (button & 0xff) as u8
    }
}

/// Map a Linux input button code, as Wayland reports it, to a wire button.
pub fn map_button(button: u32) -> (r: u8)
    ensures
        r == wire_of_linux_button(button),
{
    match button {
        0x110 => 1,
        0x111 => 3,
        0x112 => 2,
        0x113 => 8,
        0x114 => 9,
        other => (other & 0xff) as u8,
    }
}

/// Where the negotiation of a Wayland pointer constraint stands.
#[derive(Debug, Clone, Copy, PartialEq, Eq, Structural)]
pub enum ConstraintState {
    Unconstrained,
    /// A pointer lock was asked for; no answer yet.
    LockPending,
    /// The pointer is locked.
    LockActive,
    /// The lock was refused; the next attempt confines the pointer instead.
    LockDenied,
    /// A confinement was asked for; no answer yet.
    ConfinePending,
    /// The pointer is confined.
    ConfineActive,
    /// The confinement was refused too; no more fallbacks.
    ConfineDenied,
}

/// How long a constraint request may stay unanswered, in nanoseconds.
pub const CONSTRAINT_TIMEOUT_NS: u64 = 5_000_000_000;

/// A request the Wayland loop makes of the compositor, or an event it sends
/// on.
#[derive(Debug, Clone, PartialEq, Eq)]
pub enum WaylandAction {
    LockPointer,
    ConfinePointer,
    DestroyLock,
    DestroyConfine,
    InhibitShortcuts,
    DestroyInhibitor,
    Emit(InputEvent),
}

/// The Wayland grab negotiation: the constraint state, whether input is
/// grabbed, when the pending request was made, and which protocol objects
/// are held.
#[derive(Debug, Clone, Copy, PartialEq, Eq)]
pub struct WaylandGrab {
    pub state: ConstraintState,
    pub grabbed: bool,
    pub has_last_motion: bool,
    pub requested_at: Option<u64>,
    pub lock_held: bool,
    pub confine_held: bool,
    pub inhibitor_held: bool,
    pub inhibit_available: bool,
}

/// A request is timed exactly while it is pending, and input is grabbed
/// only under an active constraint.
pub open spec fn wayland_wf(g: WaylandGrab) -> bool {
    &&& (g.requested_at is Some <==> (g.state == ConstraintState::LockPending || g.state
        == ConstraintState::ConfinePending))
    &&& (g.grabbed ==> (g.state == ConstraintState::LockActive || g.state == ConstraintState::ConfineActive))
}

/// Time elapsed from `t` to `now` on a monotonic clock (never negative).
pub open spec fn elapsed(t: u64, now: u64) -> int {
    if now >= t {
        now - t
    } else {
        0
    }
}

/// The grab released: nothing grabbed, no motion reference, no pending
/// request.
pub open spec fn released(g: WaylandGrab, state: ConstraintState) -> WaylandGrab {
    WaylandGrab { state, grabbed: false, has_last_motion: false, requested_at: None, ..g }
}

impl WaylandGrab {
    /// The negotiation before any request; `inhibit_available` tells
    /// whether the compositor offers keyboard-shortcut inhibition.
    pub fn new(inhibit_available: bool) -> (g: Self)
        ensures
            wayland_wf(g),
            g.state == ConstraintState::Unconstrained,
            !g.grabbed,
            !g.has_last_motion,
            g.requested_at is None,
            !g.lock_held && !g.confine_held && !g.inhibitor_held,
            g.inhibit_available == inhibit_available,
    {
        WaylandGrab {
            state: ConstraintState::Unconstrained,
            grabbed: false,
            has_last_motion: false,
            requested_at: None,
            lock_held: false,
            confine_held: false,
            inhibitor_held: false,
            inhibit_available,
        }
    }

    /// Check the pending request against the clock at `now`: an unanswered
    /// lock falls back to confinement, an unanswered confinement gives up
    /// and releases the grab.
    pub fn on_tick(&mut self, now: u64) -> (actions: Vec<WaylandAction>)
        requires
            wayland_wf(*old(self)),
        ensures
            wayland_wf(*final(self)),
            match old(self).requested_at {
                Some(t) if elapsed(t, now) > CONSTRAINT_TIMEOUT_NS => {
                    if old(self).state == ConstraintState::LockPending {
                        &&& *final(self) == (WaylandGrab {
                            state: ConstraintState::ConfinePending,
                            requested_at: Some(now),
                            lock_held: false,
                            confine_held: true,
                            ..*old(self)
                        })
                        &&& actions@ == (if old(self).lock_held {
                            seq![WaylandAction::DestroyLock, WaylandAction::ConfinePointer]
                        } else {
                            seq![WaylandAction::ConfinePointer]
                        })
                    } else {
                        &&& *final(self) == (WaylandGrab {
                            confine_held: false,
                            ..released(*old(self), ConstraintState::ConfineDenied)
                        })
                        &&& actions@ == (if old(self).confine_held {
                            seq![
                                WaylandAction::DestroyConfine,
                                WaylandAction::Emit(InputEvent::HotkeyToggled { grabbed: false }),
                            ]
                        } else {
                            seq![WaylandAction::Emit(InputEvent::HotkeyToggled { grabbed: false })]
                        })
                    }
                },
                _ => *final(self) == *old(self) && actions@.len() == 0,
            },
    {
        let mut actions: Vec<WaylandAction> = Vec::new();
        if let Some(t) = self.requested_at {
            let waited = if now >= t { now - t } else { 0 };
            if waited > CONSTRAINT_TIMEOUT_NS {
                self.requested_at = None;
                if self.state == ConstraintState::LockPending {
                    if self.lock_held {
                        actions.push(WaylandAction::DestroyLock);
                        self.lock_held = false;
                    }
                    actions.push(WaylandAction::ConfinePointer);
                    self.confine_held = true;
                    self.state = ConstraintState::ConfinePending;
                    self.requested_at = Some(now);
                } else {
                    if self.confine_held {
                        actions.push(WaylandAction::DestroyConfine);
                        self.confine_held = false;
                    }
                    self.state = ConstraintState::ConfineDenied;
                    self.grabbed = false;
                    self.has_last_motion = false;
                    actions.push(WaylandAction::Emit(InputEvent::HotkeyToggled { grabbed: false }));
                }
            }
        }
        actions
    }

    /// Take a change of the wanted grab. A wanted grab asks for a pointer
    /// lock (or, after a refused lock, for the lock again, then for
    /// confinement on timeout), reports an error once both were refused, and
    /// inhibits compositor shortcuts when it can; a released grab drops all
    /// constraint objects, keeps a remembered refusal, and reports the
    /// release.
    pub fn on_request(&mut self, wanted: bool, now: u64) -> (actions: Vec<WaylandAction>)
        requires
            wayland_wf(*old(self)),
        ensures
            wayland_wf(*final(self)),
            wanted ==> {
                let s = old(self).state;
                let inhibit = !old(self).inhibitor_held && old(self).inhibit_available;
                let tail: Seq<WaylandAction> = if inhibit {
                    seq![WaylandAction::InhibitShortcuts]
                } else {
                    Seq::empty()
                };
                &&& final(self).inhibitor_held == (old(self).inhibitor_held || old(self).inhibit_available)
                &&& final(self).inhibit_available == old(self).inhibit_available
                &&& if s == ConstraintState::Unconstrained || s == ConstraintState::LockDenied {
                    &&& final(self).state == ConstraintState::LockPending
                    &&& final(self).requested_at == Some(now)
                    &&& final(self).lock_held
                    &&& final(self).confine_held == old(self).confine_held
                    &&& final(self).grabbed == old(self).grabbed
                    &&& final(self).has_last_motion == old(self).has_last_motion
                    &&& actions@ == seq![WaylandAction::LockPointer] + tail
                } else if s == ConstraintState::ConfineDenied {
                    &&& final(self).state == s
                    &&& final(self).requested_at == old(self).requested_at
                    &&& final(self).lock_held == old(self).lock_held
                    &&& final(self).confine_held == old(self).confine_held
                    &&& !final(self).grabbed
                    &&& !final(self).has_last_motion
                    &&& actions@.len() == 1 + tail.len()
                    &&& actions@[0] matches WaylandAction::Emit(InputEvent::BackendError(m))
                    &&& m@ == "Pointer constraints unavailable"@
                    &&& actions@.skip(1) == tail
                } else {
                    &&& final(self).state == s
                    &&& final(self).requested_at == old(self).requested_at
                    &&& final(self).lock_held == old(self).lock_held
                    &&& final(self).confine_held == old(self).confine_held
                    &&& final(self).grabbed == old(self).grabbed
                    &&& final(self).has_last_motion == old(self).has_last_motion
                    &&& actions@ == tail
                }
            },
            !wanted ==> {
                let s = old(self).state;
                let kept = s == ConstraintState::LockDenied || s == ConstraintState::ConfineDenied;
                &&& *final(self) == (WaylandGrab {
                    lock_held: false,
                    confine_held: false,
                    inhibitor_held: false,
                    ..released(*old(self), if kept { s } else { ConstraintState::Unconstrained })
                })
                &&& actions@ == (if old(self).lock_held { seq![WaylandAction::DestroyLock] } else { Seq::empty() })
                    + (if old(self).confine_held { seq![WaylandAction::DestroyConfine] } else { Seq::empty() })
                    + (if old(self).inhibitor_held { seq![WaylandAction::DestroyInhibitor] } else { Seq::empty() })
                    + seq![WaylandAction::Emit(InputEvent::HotkeyToggled { grabbed: false })]
            },
    {
        let mut actions: Vec<WaylandAction> = Vec::new();
        if wanted {
            if self.state == ConstraintState::Unconstrained || self.state == ConstraintState::LockDenied {
                actions.push(WaylandAction::LockPointer);
                self.lock_held = true;
                self.state = ConstraintState::LockPending;
                self.requested_at = Some(now);
            } else if self.state == ConstraintState::ConfineDenied {
                self.grabbed = false;
                self.has_last_motion = false;
                actions.push(WaylandAction::Emit(InputEvent::BackendError("Pointer constraints unavailable".to_string())));
            }
            if !self.inhibitor_held && self.inhibit_available {
                actions.push(WaylandAction::InhibitShortcuts);
                self.inhibitor_held = true;
            }
        } else {
            if self.lock_held {
                actions.push(WaylandAction::DestroyLock);
                self.lock_held = false;
            }
            if self.confine_held {
                actions.push(WaylandAction::DestroyConfine);
                self.confine_held = false;
            }
            if self.inhibitor_held {
                actions.push(WaylandAction::DestroyInhibitor);
                self.inhibitor_held = false;
            }
            self.grabbed = false;
            self.has_last_motion = false;
            self.requested_at = None;
            if !(self.state == ConstraintState::LockDenied || self.state == ConstraintState::ConfineDenied) {
                self.state = ConstraintState::Unconstrained;
            }
            actions.push(WaylandAction::Emit(InputEvent::HotkeyToggled { grabbed: false }));
        }
        proof {
            assert(actions@ =~= actions@);
        }
        actions
    }

    /// The compositor locked the pointer: the grab becomes active if it is
    /// still wanted (`still_wanted`).
    pub fn on_locked(&mut self, still_wanted: bool) -> (emit: Option<InputEvent>)
        requires
            wayland_wf(*old(self)),
        ensures
            wayland_wf(*final(self)),
            still_wanted ==> *final(self) == (WaylandGrab {
                state: ConstraintState::LockActive,
                requested_at: None,
                grabbed: true,
                has_last_motion: false,
                ..*old(self)
            }) && emit == Some(InputEvent::HotkeyToggled { grabbed: true }),
            !still_wanted ==> *final(self) == *old(self) && (emit is None),
    {
        if still_wanted {
            self.state = ConstraintState::LockActive;
            self.requested_at = None;
            self.grabbed = true;
            self.has_last_motion = false;
            Some(InputEvent::HotkeyToggled { grabbed: true })
        } else {
            None
        }
    }

    /// The compositor unlocked the pointer: a lock that never became active
    /// was refused; either way the grab is released.
    pub fn on_unlocked(&mut self) -> (emit: InputEvent)
        requires
            wayland_wf(*old(self)),
        ensures
            wayland_wf(*final(self)),
            *final(self) == released(*old(self), if old(self).state == ConstraintState::LockPending {
                ConstraintState::LockDenied
            } else {
                ConstraintState::Unconstrained
            }),
            emit == (InputEvent::HotkeyToggled { grabbed: false }),
    {
        self.state = if self.state == ConstraintState::LockPending {
            ConstraintState::LockDenied
        } else {
            ConstraintState::Unconstrained
        };
        self.requested_at = None;
        self.grabbed = false;
        self.has_last_motion = false;
        InputEvent::HotkeyToggled { grabbed: false }
    }

    /// The compositor confined the pointer: the grab becomes active if it
    /// is still wanted.
    pub fn on_confined(&mut self, still_wanted: bool) -> (emit: Option<InputEvent>)
        requires
            wayland_wf(*old(self)),
        ensures
            wayland_wf(*final(self)),
            still_wanted ==> *final(self) == (WaylandGrab {
                state: ConstraintState::ConfineActive,
                requested_at: None,
                grabbed: true,
                has_last_motion: false,
                ..*old(self)
            }) && emit == Some(InputEvent::HotkeyToggled { grabbed: true }),
            !still_wanted ==> *final(self) == *old(self) && (emit is None),
    {
        if still_wanted {
            self.state = ConstraintState::ConfineActive;
            self.requested_at = None;
            self.grabbed = true;
            self.has_last_motion = false;
            Some(InputEvent::HotkeyToggled { grabbed: true })
        } else {
            None
        }
    }

    /// The compositor released the confinement: one that never became
    /// active was refused; either way the grab is released.
    pub fn on_unconfined(&mut self) -> (emit: InputEvent)
        requires
            wayland_wf(*old(self)),
        ensures
            wayland_wf(*final(self)),
            *final(self) == released(*old(self), if old(self).state == ConstraintState::ConfinePending {
                ConstraintState::ConfineDenied
            } else {
                ConstraintState::Unconstrained
            }),
            emit == (InputEvent::HotkeyToggled { grabbed: false }),
    {
        self.state = if self.state == ConstraintState::ConfinePending {
            ConstraintState::ConfineDenied
        } else {
            ConstraintState::Unconstrained
        };
        self.requested_at = None;
        self.grabbed = false;
        self.has_last_motion = false;
        InputEvent::HotkeyToggled { grabbed: false }
    }
}

/// While the input is grabbed, every key release is passed on with its
/// keycode, and every key press other than the hotkey too; neither changes
/// the capture state.
pub proof fn lemma_grabbed_keys_pass_through(s: X11Capture, detail: u8, state: u16)
    requires
        s.grabbed,
    ensures
        x11_next(s, X11Event::KeyRelease { detail }) == (
            s,
            X11Step { emit: Some(InputEvent::KeyRelease { keycode: detail }), grab: GrabChange::Keep, warp: false },
        ),
        !(detail == s.keycode && state & RELEVANT_MODS == s.modifiers) ==> x11_next(
            s,
            X11Event::KeyPress { detail, state },
        ) == (s, X11Step { emit: Some(InputEvent::KeyPress { keycode: detail }), grab: GrabChange::Keep, warp: false }),
{
}

/// While the input is not grabbed, no key press or release is passed on
/// except the hotkey, which grabs.
pub proof fn lemma_free_keys_stay_local(s: X11Capture, detail: u8, state: u16)
    requires
        !s.grabbed,
    ensures
        x11_next(s, X11Event::KeyRelease { detail }).1.emit is None,
        !(detail == s.keycode && state & RELEVANT_MODS == s.modifiers) ==> x11_next(
            s,
            X11Event::KeyPress { detail, state },
        ).1.emit is None,
        (detail == s.keycode && state & RELEVANT_MODS == s.modifiers) ==> x11_next(
            s,
            X11Event::KeyPress { detail, state },
        ).0.grabbed,
{
}

/// While the input is grabbed, mouse buttons pass with their direction: a
/// press of a button other than the wheel's (4 to 7) is passed on as
/// pressed, its release as released; wheel presses become wheel steps and
/// their releases pass nothing.
pub proof fn lemma_grabbed_buttons_pass_through(s: X11Capture, detail: u8)
    requires
        s.grabbed,
    ensures
        !(4 <= detail <= 7) ==> x11_next(s, X11Event::ButtonPress { detail }).1.emit == Some(
            InputEvent::MouseButton { button: detail, pressed: true },
        ),
        !(4 <= detail <= 7) ==> x11_next(s, X11Event::ButtonRelease { detail }).1.emit == Some(
            InputEvent::MouseButton { button: detail, pressed: false },
        ),
        (4 <= detail <= 7) ==> x11_next(s, X11Event::ButtonRelease { detail }).1.emit is None,
        (4 <= detail <= 7) ==> (x11_next(s, X11Event::ButtonPress { detail }).1.emit matches Some(
            InputEvent::Wheel { dx, dy },
        ) && (dx == 0) != (dy == 0)),
        x11_next(s, X11Event::ButtonPress { detail }).0 == s,
        x11_next(s, X11Event::ButtonRelease { detail }).0 == s,
{
}

/// While the macOS tap has grabbed the input, a key going up is passed on
/// as a release of that key and a key going down (other than the hotkey)
/// as a press; mouse buttons keep their direction; all of them are kept
/// from local applications, and the state does not change.
pub proof fn lemma_mac_grabbed_pass_through(s: MacTap, f: MacEventFields)
    requires
        s.grabbed,
    ensures
        mac_next(s, MacEventKind::KeyUp, f) == (
            s,
            MacTapStep { emit: Some(InputEvent::KeyRelease { keycode: f.keycode as u8 }), drop: true },
        ),
        !(f.keycode as u16 == s.key && f.flags & RELEVANT_FLAGS == s.flags) ==> mac_next(
            s,
            MacEventKind::KeyDown,
            f,
        ) == (s, MacTapStep { emit: Some(InputEvent::KeyPress { keycode: f.keycode as u8 }), drop: true }),
        mac_next(s, MacEventKind::LeftMouseDown, f).1.emit == Some(InputEvent::MouseButton { button: 1, pressed: true }),
        mac_next(s, MacEventKind::LeftMouseUp, f).1.emit == Some(InputEvent::MouseButton { button: 1, pressed: false }),
        mac_next(s, MacEventKind::RightMouseDown, f).1.emit == Some(InputEvent::MouseButton { button: 3, pressed: true }),
        mac_next(s, MacEventKind::RightMouseUp, f).1.emit == Some(InputEvent::MouseButton { button: 3, pressed: false }),
        (mac_next(s, MacEventKind::OtherMouseDown, f).1.emit matches Some(InputEvent::MouseButton { pressed, .. }) && pressed),
        (mac_next(s, MacEventKind::OtherMouseUp, f).1.emit matches Some(InputEvent::MouseButton { pressed, .. }) && !pressed),
{
}

} // verus!
