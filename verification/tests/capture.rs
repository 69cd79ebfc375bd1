use spud::input::capture::{
    map_button, toggle_wayland_grab, is_wayland_grabbed, ConstraintState, GrabChange, GrabSignal, MacEventFields,
    MacEventKind, MacTap, WaylandAction, WaylandGrab, X11Capture, X11Event,
};
use spud::input::hotkey::{FLAG_COMMAND, FLAG_SHIFT, MOD_CONTROL};
use spud::input::InputEvent;

#[test]
fn x11_hotkey_toggles_and_passes_keys_only_when_grabbed() {
    let mut c = X11Capture::new(MOD_CONTROL, 65, 1920, 1080);
    let free = c.on_event(X11Event::KeyPress { detail: 38, state: 0 });
    assert_eq!(free.emit, None);
    let ev = X11Event::KeyPress { detail: 65, state: MOD_CONTROL | 0x10 };
    assert!(c.can_step(ev));
    let on = c.on_event(ev);
    assert_eq!(on.emit, Some(InputEvent::HotkeyToggled { grabbed: true }));
    assert_eq!(on.grab, GrabChange::Grab);
    assert!(on.warp);
    let key = c.on_event(X11Event::KeyPress { detail: 38, state: 0 });
    assert_eq!(key.emit, Some(InputEvent::KeyPress { keycode: 38 }));
    let off = c.on_event(ev);
    assert_eq!(off.emit, Some(InputEvent::HotkeyToggled { grabbed: false }));
    assert_eq!(off.grab, GrabChange::Ungrab);
}

#[test]
fn x11_warp_echo_is_swallowed() {
    let mut c = X11Capture::new(0, 65, 1000, 800);
    c.on_event(X11Event::KeyPress { detail: 65, state: 0 });
    // The warp to the centre comes back as a motion event: no movement.
    let echo = c.on_event(X11Event::Motion { x: 500, y: 400 });
    assert_eq!(echo.emit, None);
    let mv = c.on_event(X11Event::Motion { x: 510, y: 395 });
    assert_eq!(mv.emit, Some(InputEvent::MouseMove { dx: 10, dy: -5 }));
}

#[test]
fn x11_buttons_and_wheel() {
    assert_eq!(map_button(0x110), 1);
    assert_eq!(map_button(0x111), 3);
    assert_eq!(map_button(0x1ff), 0xff);
    let mut c = X11Capture::new(0, 65, 1000, 800);
    c.on_event(X11Event::KeyPress { detail: 65, state: 0 });
    let b = c.on_event(X11Event::ButtonPress { detail: 3 });
    assert_eq!(b.emit, Some(InputEvent::MouseButton { button: 3, pressed: true }));
    let w = c.on_event(X11Event::ButtonPress { detail: 4 });
    assert_eq!(w.emit, Some(InputEvent::Wheel { dx: 0, dy: -1 }));
}

#[test]
fn mac_tap_drops_grabbed_events() {
    let mut t = MacTap::new(FLAG_COMMAND | FLAG_SHIFT, 40);
    let f = MacEventFields { keycode: 40, flags: FLAG_COMMAND | FLAG_SHIFT, button_number: 0, delta_x: 0, delta_y: 0, scroll_axis_1: 0, scroll_axis_2: 0 };
    let step = t.on_event(MacEventKind::KeyDown, f);
    assert_eq!(step.emit, Some(InputEvent::HotkeyToggled { grabbed: true }));
    assert!(step.drop);
    let k = t.on_event(MacEventKind::KeyDown, MacEventFields { keycode: 0, flags: 0, ..f });
    assert!(k.drop);
    assert!(k.emit.is_some());
    t.on_event(MacEventKind::KeyDown, f);
    let through = t.on_event(MacEventKind::KeyDown, MacEventFields { keycode: 0, flags: 0, ..f });
    assert!(!through.drop);
    assert_eq!(through.emit, None);
}

#[test]
fn wayland_lock_then_release() {
    let mut g = WaylandGrab::new(true);
    let a = g.on_request(true, 100);
    assert_eq!(a, vec![WaylandAction::LockPointer, WaylandAction::InhibitShortcuts]);
    assert_eq!(g.state, ConstraintState::LockPending);
    assert_eq!(g.on_locked(true), Some(InputEvent::HotkeyToggled { grabbed: true }));
    assert!(g.grabbed);
    let r = g.on_request(false, 200);
    assert_eq!(
        r,
        vec![
            WaylandAction::DestroyLock,
            WaylandAction::DestroyInhibitor,
            WaylandAction::Emit(InputEvent::HotkeyToggled { grabbed: false })
        ]
    );
    assert!(!g.grabbed);
    assert_eq!(g.state, ConstraintState::Unconstrained);
}

#[test]
fn wayland_signal_toggles() {
    let mut s = GrabSignal::default();
    assert!(!is_wayland_grabbed(&s, true));
    assert!(toggle_wayland_grab(&mut s, true));
    assert!(is_wayland_grabbed(&s, true));
    assert!(!is_wayland_grabbed(&s, false));
    assert_eq!(s.take_dirty(), Some(true));
    assert_eq!(s.take_dirty(), None);
    assert!(!toggle_wayland_grab(&mut s, true));
    assert!(!toggle_wayland_grab(&mut s, false));
    assert_eq!(s.take_dirty(), Some(false));
    assert!(!toggle_wayland_grab(&mut s, false));
    assert_eq!(s.take_dirty(), None);
}
