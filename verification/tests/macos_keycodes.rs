use spud::input::macos_keycodes::{evdev_to_macos, macos_to_evdev};

#[test]
fn roundtrip_evdev_to_macos() {
    for code in 0..=0xFFu16 {
        if let Some(macos) = evdev_to_macos(code) {
            assert_eq!(macos_to_evdev(macos), Some(code), "roundtrip failed for evdev {}", code);
        }
    }
}

#[test]
fn roundtrip_macos_to_evdev() {
    for code in 0..=0x7Fu16 {
        if let Some(evdev) = macos_to_evdev(code) {
            assert_eq!(evdev_to_macos(evdev), Some(code), "roundtrip failed for macos {}", code);
        }
    }
}

#[test]
fn coverage_common_keys() {
    let common = [
        1, 2, 3, 14, 15, 28, 29, 30, 42, 57, 58, 59, 60, 61, 62, 63, 64, 65, 66, 67, 68, 87, 88, 103, 105, 106,
        108, 125, 126,
    ];
    for &code in &common {
        assert!(evdev_to_macos(code).is_some(), "common key {} missing macOS mapping", code);
    }
}

#[test]
fn macos_letter_a_and_escape() {
    assert_eq!(evdev_to_macos(30), Some(0x00));
    assert_eq!(evdev_to_macos(1), Some(0x35));
    assert_eq!(macos_to_evdev(0x35), Some(1));
    assert_eq!(evdev_to_macos(0xFFFF), None);
}
