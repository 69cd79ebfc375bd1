use spud::input::hotkey::{
    label_to_keysym, label_to_macos_keycode, macos_button_to_wire, parse_macos_hotkey, parse_x11_hotkey, HotkeyError,
    KeyboardMapping, FLAG_COMMAND, FLAG_SHIFT, MOD_CONTROL, MOD_M1,
};
use spud::input::key_names::{parse_key_name, parse_mouse_button};
use spud::input::window_keys::{
    char_to_evdev, code_to_evdev, format_chord, key_to_evdev, map_window_button, named_key_to_evdev,
    physical_key_to_evdev, LogicalKey, Modifiers, PhysicalKey, PointerButton,
};
use spud::input::inject::{
    linux_key_events, linux_wheel_events, mac_mouse_event, mac_scroll_axes, wire_to_linux_button, InjectCmd,
    MacMouseButton, MacMouseEventType,
};
use spud::session::evdev_name;

#[test]
fn key_names_parse() {
    assert_eq!(parse_key_name("KeyA"), Some(30));
    assert_eq!(parse_key_name("a"), Some(30));
    assert_eq!(parse_key_name("Z"), Some(44));
    assert_eq!(parse_key_name("b"), Some(48));
    assert_eq!(parse_key_name("Q"), Some(16));
    assert_eq!(parse_key_name("evdev:183"), Some(183));
    assert_eq!(parse_key_name("evdev:70000"), None);
    assert_eq!(parse_key_name("Escape"), Some(1));
    assert_eq!(parse_key_name("\n"), Some(28));
    assert_eq!(parse_key_name("Nope"), None);
    assert_eq!(parse_mouse_button("mouse 3"), Some(3));
    assert_eq!(parse_mouse_button("mouse  4 "), Some(4));
    assert_eq!(parse_mouse_button("mouse 300"), None);
    assert_eq!(parse_mouse_button("key 3"), None);
}

#[test]
fn physical_codes_to_scancodes() {
    assert_eq!(code_to_evdev("KeyQ"), Some(16));
    assert_eq!(code_to_evdev("F24"), Some(194));
    assert_eq!(code_to_evdev("MediaPlayPause"), Some(164));
    assert_eq!(code_to_evdev("IntlYen"), Some(124));
    assert_eq!(code_to_evdev("Escape"), None);
    assert_eq!(code_to_evdev("a"), None);
    assert_eq!(physical_key_to_evdev(&PhysicalKey::Code("ShiftRight".to_string())), Some(54));
    assert_eq!(physical_key_to_evdev(&PhysicalKey::Xkb(0x1_0021)), Some(0x21));
    assert_eq!(physical_key_to_evdev(&PhysicalKey::Unidentified), None);
}

#[test]
fn logical_keys_fall_back() {
    assert_eq!(char_to_evdev('q'), Some(16));
    assert_eq!(char_to_evdev('Q'), Some(16));
    assert_eq!(char_to_evdev('?'), Some(53));
    assert_eq!(char_to_evdev('é'), None);
    assert_eq!(named_key_to_evdev("Control"), Some(29));
    assert_eq!(named_key_to_evdev("AltGraph"), Some(100));
    assert_eq!(named_key_to_evdev("HiraganaKatakana"), Some(93));
    assert_eq!(key_to_evdev(&LogicalKey::Character("!x".to_string())), Some(2));
    assert_eq!(key_to_evdev(&LogicalKey::Character(String::new())), None);
    assert_eq!(key_to_evdev(&LogicalKey::Named("F13".to_string())), Some(183));
}

#[test]
fn window_buttons_to_wire() {
    assert_eq!(map_window_button(PointerButton::Left), 1);
    assert_eq!(map_window_button(PointerButton::Right), 3);
    assert_eq!(map_window_button(PointerButton::Forward), 9);
    assert_eq!(map_window_button(PointerButton::Other(12)), 12);
    assert_eq!(map_window_button(PointerButton::Other(1000)), 255);
    assert_eq!(macos_button_to_wire(1), 3);
    assert_eq!(macos_button_to_wire(7), 7);
    assert_eq!(wire_to_linux_button(1), 0x110);
}

#[test]
fn chords_are_written_with_modifiers_first() {
    let all = Modifiers { control: true, alt: true, shift: true, logo: true };
    let none = Modifiers { control: false, alt: false, shift: false, logo: false };
    assert_eq!(format_chord(&LogicalKey::Named("Space".to_string()), all).as_deref(), Some("Ctrl+Alt+Shift+Super+Space"));
    assert_eq!(format_chord(&LogicalKey::Character("k".to_string()), none).as_deref(), Some("K"));
    assert_eq!(
        format_chord(&LogicalKey::Named("PageUp".to_string()), Modifiers { control: true, ..none }).as_deref(),
        Some("Ctrl+Page Up")
    );
    assert_eq!(format_chord(&LogicalKey::Named("Shift".to_string()), all), None);
    assert_eq!(format_chord(&LogicalKey::Named("Escape".to_string()), none), None);
    assert_eq!(format_chord(&LogicalKey::Unidentified, none), None);
}

#[test]
fn hotkeys_parse_for_each_platform() {
    let (flags, key) = parse_macos_hotkey("Cmd+Shift+K").unwrap();
    assert_eq!(flags, FLAG_COMMAND | FLAG_SHIFT);
    assert_eq!(Some(key), label_to_macos_keycode("K"));
    assert_eq!(parse_macos_hotkey("Ctrl+Alt"), Err(HotkeyError::NoKey));
    assert_eq!(parse_macos_hotkey("A+B"), Err(HotkeyError::MultipleKeys("A+B".to_string())));
    let space = label_to_keysym("Space").unwrap();
    assert_eq!(space, 0x20);
    let mapping = KeyboardMapping { min_keycode: 8, keysyms_per_keycode: 2, keysyms: vec![0, 0, 0x20, 0x20] };
    assert_eq!(parse_x11_hotkey("Ctrl+Alt+Space", &mapping), Ok((MOD_CONTROL | MOD_M1, 9)));
    assert_eq!(parse_x11_hotkey("Ctrl+F5", &mapping), Err(HotkeyError::NoKeycode(0xffc2)));
    assert_eq!(HotkeyError::NoKeycode(0xffc2).message(), "no keycode found for keysym 0xffc2");
    assert_eq!(
        parse_x11_hotkey("Ctrl+Bogus", &mapping).unwrap_err().message(),
        "unsupported key 'Bogus'"
    );
}

#[test]
fn injector_event_shapes() {
    assert_eq!(linux_key_events(30, 1), vec![(1, 30, 1), (0, 0, 0)]);
    assert_eq!(linux_wheel_events(0, -1), vec![(2, 8, -1), (0, 0, 0)]);
    assert_eq!(linux_wheel_events(2, 0), vec![(2, 6, 2), (0, 0, 0)]);
    assert_eq!(linux_wheel_events(1, 1), vec![(2, 8, 1), (2, 6, 1), (0, 0, 0)]);
    assert_eq!(mac_mouse_event(1, true), (MacMouseEventType::LeftMouseDown, MacMouseButton::Left));
    assert_eq!(mac_mouse_event(3, false), (MacMouseEventType::RightMouseUp, MacMouseButton::Right));
    assert_eq!(mac_mouse_event(2, true), (MacMouseEventType::OtherMouseDown, MacMouseButton::Center));
    assert_eq!(mac_mouse_event(8, true), (MacMouseEventType::OtherMouseDown, MacMouseButton::Number(8)));
    assert_eq!(mac_mouse_event(0x101, false), (MacMouseEventType::LeftMouseUp, MacMouseButton::Left));
    assert_eq!(mac_scroll_axes(-2, 3), (3, -2));
}

#[test]
fn tracker_actions_become_injector_commands() {
    let release = format!("release {} (timeout)", evdev_name(30));
    assert_eq!(InjectCmd::from_action(&release), Some(InjectCmd::KeyUp { code: 30 }));
    assert_eq!(
        InjectCmd::from_action("press mouse 3"),
        Some(InjectCmd::ButtonDown { code: wire_to_linux_button(3) })
    );
    assert_eq!(InjectCmd::from_action("repeat KEY_A"), None);
    assert_eq!(InjectCmd::from_action("  repeat mouse 1"), None);
}

