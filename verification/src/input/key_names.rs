//! Logical key names and their Linux evdev scancodes.
//!
//! Converts logical key names (as used by the user interface and the wire
//! protocol) into Linux evdev scancodes and wire-protocol mouse button codes.

use vstd::prelude::*;
use vstd::string::StrSliceExecFns;
use crate::text::{has_prefix, parse_uint, parse_unsigned, plain_word, str_eq, strip_prefix, trim, trimmed};

verus! {

/// The evdev scancode of a named key.
pub open spec fn named_key_code(n: Seq<char>) -> Option<u16> {
    if n.len() == 2 {
        if n == "F1"@ {
            Some(59u16)
        } else if n == "F2"@ {
            Some(60u16)
        } else if n == "F3"@ {
            Some(61u16)
        } else if n == "F4"@ {
            Some(62u16)
        } else if n == "F5"@ {
            Some(63u16)
        } else if n == "F6"@ {
            Some(64u16)
        } else if n == "F7"@ {
            Some(65u16)
        } else if n == "F8"@ {
            Some(66u16)
        } else if n == "F9"@ {
            Some(67u16)
        } else {
            None
        }
    } else if n.len() == 3 {
        if n == "Tab"@ {
            Some(15u16)
        } else if n == "F10"@ {
            Some(68u16)
        } else if n == "F11"@ {
            Some(87u16)
        } else if n == "F12"@ {
            Some(88u16)
        } else if n == "End"@ {
            Some(107u16)
        } else {
            None
        }
    } else if n.len() == 4 {
        if n == "KeyQ"@ {
            Some(16u16)
        } else if n == "KeyW"@ {
            Some(17u16)
        } else if n == "KeyE"@ {
            Some(18u16)
        } else if n == "KeyR"@ {
            Some(19u16)
        } else if n == "KeyT"@ {
            Some(20u16)
        } else if n == "KeyY"@ {
            Some(21u16)
        } else if n == "KeyU"@ {
            Some(22u16)
        } else if n == "KeyI"@ {
            Some(23u16)
        } else if n == "KeyO"@ {
            Some(24u16)
        } else if n == "KeyP"@ {
            Some(25u16)
        } else if n == "KeyA"@ {
            Some(30u16)
        } else if n == "KeyS"@ {
            Some(31u16)
        } else if n == "KeyD"@ {
            Some(32u16)
        } else if n == "KeyF"@ {
            Some(33u16)
        } else if n == "KeyG"@ {
            Some(34u16)
        } else if n == "KeyH"@ {
            Some(35u16)
        } else if n == "KeyJ"@ {
            Some(36u16)
        } else if n == "KeyK"@ {
            Some(37u16)
        } else if n == "KeyL"@ {
            Some(38u16)
        } else if n == "KeyZ"@ {
            Some(44u16)
        } else if n == "KeyX"@ {
            Some(45u16)
        } else if n == "KeyC"@ {
            Some(46u16)
        } else if n == "KeyV"@ {
            Some(47u16)
        } else if n == "KeyB"@ {
            Some(48u16)
        } else if n == "KeyN"@ {
            Some(49u16)
        } else if n == "KeyM"@ {
            Some(50u16)
        } else if n == "Home"@ {
            Some(102u16)
        } else if n == "Help"@ {
            Some(138u16)
        } else {
            None
        }
    } else if n.len() == 5 {
        if n == "Minus"@ {
            Some(12u16)
        } else if n == "Equal"@ {
            Some(13u16)
        } else if n == "Enter"@ {
            Some(28u16)
        } else if n == "Quote"@ {
            Some(40u16)
        } else if n == "Comma"@ {
            Some(51u16)
        } else if n == "Slash"@ {
            Some(53u16)
        } else if n == "Space"@ {
            Some(57u16)
        } else if n == "Pause"@ {
            Some(119u16)
        } else if n == "Lang1"@ {
            Some(122u16)
        } else if n == "Lang2"@ {
            Some(123u16)
        } else if n == "Lang3"@ {
            Some(90u16)
        } else if n == "Lang4"@ {
            Some(91u16)
        } else if n == "Lang5"@ {
            Some(85u16)
        } else {
            None
        }
    } else if n.len() == 6 {
        if n == "Escape"@ {
            Some(1u16)
        } else if n == "Digit1"@ {
            Some(2u16)
        } else if n == "Digit2"@ {
            Some(3u16)
        } else if n == "Digit3"@ {
            Some(4u16)
        } else if n == "Digit4"@ {
            Some(5u16)
        } else if n == "Digit5"@ {
            Some(6u16)
        } else if n == "Digit6"@ {
            Some(7u16)
        } else if n == "Digit7"@ {
            Some(8u16)
        } else if n == "Digit8"@ {
            Some(9u16)
        } else if n == "Digit9"@ {
            Some(10u16)
        } else if n == "Digit0"@ {
            Some(11u16)
        } else if n == "Period"@ {
            Some(52u16)
        } else if n == "IntlRo"@ {
            Some(89u16)
        } else if n == "PageUp"@ {
            Some(104u16)
        } else if n == "Insert"@ {
            Some(110u16)
        } else if n == "Delete"@ {
            Some(111u16)
        } else {
            None
        }
    } else if n.len() == 7 {
        if n == "AltLeft"@ {
            Some(56u16)
        } else if n == "NumLock"@ {
            Some(69u16)
        } else if n == "Numpad7"@ {
            Some(71u16)
        } else if n == "Numpad8"@ {
            Some(72u16)
        } else if n == "Numpad9"@ {
            Some(73u16)
        } else if n == "Numpad4"@ {
            Some(75u16)
        } else if n == "Numpad5"@ {
            Some(76u16)
        } else if n == "Numpad6"@ {
            Some(77u16)
        } else if n == "Numpad1"@ {
            Some(79u16)
        } else if n == "Numpad2"@ {
            Some(80u16)
        } else if n == "Numpad3"@ {
            Some(81u16)
        } else if n == "Numpad0"@ {
            Some(82u16)
        } else if n == "Convert"@ {
            Some(92u16)
        } else if n == "ArrowUp"@ {
            Some(103u16)
        } else {
            None
        }
    } else if n.len() == 8 {
        if n == "CapsLock"@ {
            Some(58u16)
        } else if n == "KanaMode"@ {
            Some(93u16)
        } else if n == "AltRight"@ {
            Some(100u16)
        } else if n == "PageDown"@ {
            Some(109u16)
        } else {
            None
        }
    } else if n.len() == 9 {
        if n == "Backspace"@ {
            Some(14u16)
        } else if n == "Semicolon"@ {
            Some(39u16)
        } else if n == "Backquote"@ {
            Some(41u16)
        } else if n == "ShiftLeft"@ {
            Some(42u16)
        } else if n == "Backslash"@ {
            Some(43u16)
        } else if n == "NumpadAdd"@ {
            Some(78u16)
        } else if n == "ArrowLeft"@ {
            Some(105u16)
        } else if n == "ArrowDown"@ {
            Some(108u16)
        } else if n == "SuperLeft"@ {
            Some(125u16)
        } else {
            None
        }
    } else if n.len() == 10 {
        if n == "ShiftRight"@ {
            Some(54u16)
        } else if n == "ScrollLock"@ {
            Some(70u16)
        } else if n == "NonConvert"@ {
            Some(94u16)
        } else if n == "ArrowRight"@ {
            Some(106u16)
        } else if n == "SuperRight"@ {
            Some(126u16)
        } else {
            None
        }
    } else if n.len() == 11 {
        if n == "BracketLeft"@ {
            Some(26u16)
        } else if n == "ControlLeft"@ {
            Some(29u16)
        } else if n == "NumpadEnter"@ {
            Some(96u16)
        } else if n == "PrintScreen"@ {
            Some(99u16)
        } else if n == "ContextMenu"@ {
            Some(127u16)
        } else if n == "NumpadComma"@ {
            Some(121u16)
        } else if n == "NumpadEqual"@ {
            Some(117u16)
        } else {
            None
        }
    } else if n.len() == 12 {
        if n == "BracketRight"@ {
            Some(27u16)
        } else if n == "ControlRight"@ {
            Some(97u16)
        } else if n == "NumpadDivide"@ {
            Some(98u16)
        } else {
            None
        }
    } else if n.len() == 13 {
        if n == "NumpadDecimal"@ {
            Some(83u16)
        } else if n == "IntlBackslash"@ {
            Some(86u16)
        } else {
            None
        }
    } else if n.len() == 14 {
        if n == "NumpadMultiply"@ {
            Some(55u16)
        } else if n == "NumpadSubtract"@ {
            Some(74u16)
        } else {
            None
        }
    } else {
        None
    }
}

/// The name of a key by its evdev scancode, for the scancodes that have one.
pub open spec fn key_code_name(c: u16) -> Option<Seq<char>> {
    if c == 1 {
        Some("Escape"@)
    } else if c == 2 {
        Some("Digit1"@)
    } else if c == 3 {
        Some("Digit2"@)
    } else if c == 4 {
        Some("Digit3"@)
    } else if c == 5 {
        Some("Digit4"@)
    } else if c == 6 {
        Some("Digit5"@)
    } else if c == 7 {
        Some("Digit6"@)
    } else if c == 8 {
        Some("Digit7"@)
    } else if c == 9 {
        Some("Digit8"@)
    } else if c == 10 {
        Some("Digit9"@)
    } else if c == 11 {
        Some("Digit0"@)
    } else if c == 12 {
        Some("Minus"@)
    } else if c == 13 {
        Some("Equal"@)
    } else if c == 14 {
        Some("Backspace"@)
    } else if c == 15 {
        Some("Tab"@)
    } else if c == 16 {
        Some("KeyQ"@)
    } else if c == 17 {
        Some("KeyW"@)
    } else if c == 18 {
        Some("KeyE"@)
    } else if c == 19 {
        Some("KeyR"@)
    } else if c == 20 {
        Some("KeyT"@)
    } else if c == 21 {
        Some("KeyY"@)
    } else if c == 22 {
        Some("KeyU"@)
    } else if c == 23 {
        Some("KeyI"@)
    } else if c == 24 {
        Some("KeyO"@)
    } else if c == 25 {
        Some("KeyP"@)
    } else if c == 26 {
        Some("BracketLeft"@)
    } else if c == 27 {
        Some("BracketRight"@)
    } else if c == 28 {
        Some("Enter"@)
    } else if c == 29 {
        Some("ControlLeft"@)
    } else if c == 30 {
        Some("KeyA"@)
    } else if c == 31 {
        Some("KeyS"@)
    } else if c == 32 {
        Some("KeyD"@)
    } else if c == 33 {
        Some("KeyF"@)
    } else if c == 34 {
        Some("KeyG"@)
    } else if c == 35 {
        Some("KeyH"@)
    } else if c == 36 {
        Some("KeyJ"@)
    } else if c == 37 {
        Some("KeyK"@)
    } else if c == 38 {
        Some("KeyL"@)
    } else if c == 39 {
        Some("Semicolon"@)
    } else if c == 40 {
        Some("Quote"@)
    } else if c == 41 {
        Some("Backquote"@)
    } else if c == 42 {
        Some("ShiftLeft"@)
    } else if c == 43 {
        Some("Backslash"@)
    } else if c == 44 {
        Some("KeyZ"@)
    } else if c == 45 {
        Some("KeyX"@)
    } else if c == 46 {
        Some("KeyC"@)
    } else if c == 47 {
        Some("KeyV"@)
    } else if c == 48 {
        Some("KeyB"@)
    } else if c == 49 {
        Some("KeyN"@)
    } else if c == 50 {
        Some("KeyM"@)
    } else if c == 51 {
        Some("Comma"@)
    } else if c == 52 {
        Some("Period"@)
    } else if c == 53 {
        Some("Slash"@)
    } else if c == 54 {
        Some("ShiftRight"@)
    } else if c == 55 {
        Some("NumpadMultiply"@)
    } else if c == 56 {
        Some("AltLeft"@)
    } else if c == 57 {
        Some("Space"@)
    } else if c == 58 {
        Some("CapsLock"@)
    } else if c == 59 {
        Some("F1"@)
    } else if c == 60 {
        Some("F2"@)
    } else if c == 61 {
        Some("F3"@)
    } else if c == 62 {
        Some("F4"@)
    } else if c == 63 {
        Some("F5"@)
    } else if c == 64 {
        Some("F6"@)
    } else if c == 65 {
        Some("F7"@)
    } else if c == 66 {
        Some("F8"@)
    } else if c == 67 {
        Some("F9"@)
    } else if c == 68 {
        Some("F10"@)
    } else if c == 69 {
        Some("NumLock"@)
    } else if c == 70 {
        Some("ScrollLock"@)
    } else if c == 71 {
        Some("Numpad7"@)
    } else if c == 72 {
        Some("Numpad8"@)
    } else if c == 73 {
        Some("Numpad9"@)
    } else if c == 74 {
        Some("NumpadSubtract"@)
    } else if c == 75 {
        Some("Numpad4"@)
    } else if c == 76 {
        Some("Numpad5"@)
    } else if c == 77 {
        Some("Numpad6"@)
    } else if c == 78 {
        Some("NumpadAdd"@)
    } else if c == 79 {
        Some("Numpad1"@)
    } else if c == 80 {
        Some("Numpad2"@)
    } else if c == 81 {
        Some("Numpad3"@)
    } else if c == 82 {
        Some("Numpad0"@)
    } else if c == 83 {
        Some("NumpadDecimal"@)
    } else if c == 85 {
        Some("Lang5"@)
    } else if c == 86 {
        Some("IntlBackslash"@)
    } else if c == 87 {
        Some("F11"@)
    } else if c == 88 {
        Some("F12"@)
    } else if c == 89 {
        Some("IntlRo"@)
    } else if c == 90 {
        Some("Lang3"@)
    } else if c == 91 {
        Some("Lang4"@)
    } else if c == 92 {
        Some("Convert"@)
    } else if c == 93 {
        Some("KanaMode"@)
    } else if c == 94 {
        Some("NonConvert"@)
    } else if c == 96 {
        Some("NumpadEnter"@)
    } else if c == 97 {
        Some("ControlRight"@)
    } else if c == 98 {
        Some("NumpadDivide"@)
    } else if c == 99 {
        Some("PrintScreen"@)
    } else if c == 100 {
        Some("AltRight"@)
    } else if c == 102 {
        Some("Home"@)
    } else if c == 103 {
        Some("ArrowUp"@)
    } else if c == 104 {
        Some("PageUp"@)
    } else if c == 105 {
        Some("ArrowLeft"@)
    } else if c == 106 {
        Some("ArrowRight"@)
    } else if c == 107 {
        Some("End"@)
    } else if c == 108 {
        Some("ArrowDown"@)
    } else if c == 109 {
        Some("PageDown"@)
    } else if c == 110 {
        Some("Insert"@)
    } else if c == 111 {
        Some("Delete"@)
    } else if c == 117 {
        Some("NumpadEqual"@)
    } else if c == 119 {
        Some("Pause"@)
    } else if c == 121 {
        Some("NumpadComma"@)
    } else if c == 122 {
        Some("Lang1"@)
    } else if c == 123 {
        Some("Lang2"@)
    } else if c == 125 {
        Some("SuperLeft"@)
    } else if c == 126 {
        Some("SuperRight"@)
    } else if c == 127 {
        Some("ContextMenu"@)
    } else if c == 138 {
        Some("Help"@)
    } else {
        None
    }
}

/// The evdev scancode for the character of a one-character key name that is
/// not a letter.
pub open spec fn symbol_key_code(ch: char) -> Option<u16> {
    if ch == '1' {
        Some(2u16)
    } else if ch == '2' {
        Some(3u16)
    } else if ch == '3' {
        Some(4u16)
    } else if ch == '4' {
        Some(5u16)
    } else if ch == '5' {
        Some(6u16)
    } else if ch == '6' {
        Some(7u16)
    } else if ch == '7' {
        Some(8u16)
    } else if ch == '8' {
        Some(9u16)
    } else if ch == '9' {
        Some(10u16)
    } else if ch == '0' {
        Some(11u16)
    } else if ch == ' ' {
        Some(57u16)
    } else if ch == '\t' {
        Some(15u16)
    } else if ch == '\n' {
        Some(28u16)
    } else if ch == '\r' {
        Some(28u16)
    } else if ch == '-' {
        Some(12u16)
    } else if ch == '=' {
        Some(13u16)
    } else if ch == '[' {
        Some(26u16)
    } else if ch == ']' {
        Some(27u16)
    } else if ch == '\\' {
        Some(43u16)
    } else if ch == ';' {
        Some(39u16)
    } else if ch == '\'' {
        Some(40u16)
    } else if ch == '`' {
        Some(41u16)
    } else if ch == ',' {
        Some(51u16)
    } else if ch == '.' {
        Some(52u16)
    } else if ch == '/' {
        Some(53u16)
    } else {
        None
    }
}

/// The scancode of the key that a letter names, in either case: the key
/// in that letter's place on a US keyboard, as its `Key` name gives it.
pub open spec fn letter_key_code(ch: char) -> Option<u16> {
    if ch == 'a' || ch == 'A' {
        Some(30u16)
    } else if ch == 'b' || ch == 'B' {
        Some(48u16)
    } else if ch == 'c' || ch == 'C' {
        Some(46u16)
    } else if ch == 'd' || ch == 'D' {
        Some(32u16)
    } else if ch == 'e' || ch == 'E' {
        Some(18u16)
    } else if ch == 'f' || ch == 'F' {
        Some(33u16)
    } else if ch == 'g' || ch == 'G' {
        Some(34u16)
    } else if ch == 'h' || ch == 'H' {
        Some(35u16)
    } else if ch == 'i' || ch == 'I' {
        Some(23u16)
    } else if ch == 'j' || ch == 'J' {
        Some(36u16)
    } else if ch == 'k' || ch == 'K' {
        Some(37u16)
    } else if ch == 'l' || ch == 'L' {
        Some(38u16)
    } else if ch == 'm' || ch == 'M' {
        Some(50u16)
    } else if ch == 'n' || ch == 'N' {
        Some(49u16)
    } else if ch == 'o' || ch == 'O' {
        Some(24u16)
    } else if ch == 'p' || ch == 'P' {
        Some(25u16)
    } else if ch == 'q' || ch == 'Q' {
        Some(16u16)
    } else if ch == 'r' || ch == 'R' {
        Some(19u16)
    } else if ch == 's' || ch == 'S' {
        Some(31u16)
    } else if ch == 't' || ch == 'T' {
        Some(20u16)
    } else if ch == 'u' || ch == 'U' {
        Some(22u16)
    } else if ch == 'v' || ch == 'V' {
        Some(47u16)
    } else if ch == 'w' || ch == 'W' {
        Some(17u16)
    } else if ch == 'x' || ch == 'X' {
        Some(45u16)
    } else if ch == 'y' || ch == 'Y' {
        Some(21u16)
    } else if ch == 'z' || ch == 'Z' {
        Some(44u16)
    } else {
        None
    }
}

/// The scancode for a one-character key name: a letter names its key, other
/// characters the key that types them.
pub open spec fn char_key_code(n: Seq<char>) -> Option<u16> {
    if n.len() != 1 {
        None
    } else {
        match letter_key_code(n[0]) {
            Some(c) => Some(c),
            None => symbol_key_code(n[0]),
        }
    }
}

/// What `parse_key_name` gives for a key name.
pub open spec fn key_name_spec(n: Seq<char>) -> Option<u16> {
    if has_prefix(n, "evdev:"@) {
        match parse_unsigned(n.skip("evdev:"@.len() as int), 65535) {
            Some(v) => Some(v as u16),
            None => None,
        }
    } else {
        match named_key_code(n) {
            Some(c) => Some(c),
            None => char_key_code(n),
        }
    }
}

/// What `parse_mouse_button` gives for a name.
pub open spec fn mouse_button_spec(n: Seq<char>) -> Option<u8> {
    if has_prefix(n, "mouse "@) {
        match parse_unsigned(trimmed(n.skip("mouse "@.len() as int)), 255) {
            Some(v) => Some(v as u8),
            None => None,
        }
    } else {
        None
    }
}

pub(crate) fn named_code(name: &str) -> (r: Option<u16>)
    ensures
        r == named_key_code(name@),
{
    let len = name.unicode_len();
    if len == 2 {
        if str_eq(name, "F1") {
            Some(59)
        } else if str_eq(name, "F2") {
            Some(60)
        } else if str_eq(name, "F3") {
            Some(61)
        } else if str_eq(name, "F4") {
            Some(62)
        } else if str_eq(name, "F5") {
            Some(63)
        } else if str_eq(name, "F6") {
            Some(64)
        } else if str_eq(name, "F7") {
            Some(65)
        } else if str_eq(name, "F8") {
            Some(66)
        } else if str_eq(name, "F9") {
            Some(67)
        } else {
            None
        }
    } else if len == 3 {
        if str_eq(name, "Tab") {
            Some(15)
        } else if str_eq(name, "F10") {
            Some(68)
        } else if str_eq(name, "F11") {
            Some(87)
        } else if str_eq(name, "F12") {
            Some(88)
        } else if str_eq(name, "End") {
            Some(107)
        } else {
            None
        }
    } else if len == 4 {
        if str_eq(name, "KeyQ") {
            Some(16)
        } else if str_eq(name, "KeyW") {
            Some(17)
        } else if str_eq(name, "KeyE") {
            Some(18)
        } else if str_eq(name, "KeyR") {
            Some(19)
        } else if str_eq(name, "KeyT") {
            Some(20)
        } else if str_eq(name, "KeyY") {
            Some(21)
        } else if str_eq(name, "KeyU") {
            Some(22)
        } else if str_eq(name, "KeyI") {
            Some(23)
        } else if str_eq(name, "KeyO") {
            Some(24)
        } else if str_eq(name, "KeyP") {
            Some(25)
        } else if str_eq(name, "KeyA") {
            Some(30)
        } else if str_eq(name, "KeyS") {
            Some(31)
        } else if str_eq(name, "KeyD") {
            Some(32)
        } else if str_eq(name, "KeyF") {
            Some(33)
        } else if str_eq(name, "KeyG") {
            Some(34)
        } else if str_eq(name, "KeyH") {
            Some(35)
        } else if str_eq(name, "KeyJ") {
            Some(36)
        } else if str_eq(name, "KeyK") {
            Some(37)
        } else if str_eq(name, "KeyL") {
            Some(38)
        } else if str_eq(name, "KeyZ") {
            Some(44)
        } else if str_eq(name, "KeyX") {
            Some(45)
        } else if str_eq(name, "KeyC") {
            Some(46)
        } else if str_eq(name, "KeyV") {
            Some(47)
        } else if str_eq(name, "KeyB") {
            Some(48)
        } else if str_eq(name, "KeyN") {
            Some(49)
        } else if str_eq(name, "KeyM") {
            Some(50)
        } else if str_eq(name, "Home") {
            Some(102)
        } else if str_eq(name, "Help") {
            Some(138)
        } else {
            None
        }
    } else if len == 5 {
        if str_eq(name, "Minus") {
            Some(12)
        } else if str_eq(name, "Equal") {
            Some(13)
        } else if str_eq(name, "Enter") {
            Some(28)
        } else if str_eq(name, "Quote") {
            Some(40)
        } else if str_eq(name, "Comma") {
            Some(51)
        } else if str_eq(name, "Slash") {
            Some(53)
        } else if str_eq(name, "Space") {
            Some(57)
        } else if str_eq(name, "Pause") {
            Some(119)
        } else if str_eq(name, "Lang1") {
            Some(122)
        } else if str_eq(name, "Lang2") {
            Some(123)
        } else if str_eq(name, "Lang3") {
            Some(90)
        } else if str_eq(name, "Lang4") {
            Some(91)
        } else if str_eq(name, "Lang5") {
            Some(85)
        } else {
            None
        }
    } else if len == 6 {
        if str_eq(name, "Escape") {
            Some(1)
        } else if str_eq(name, "Digit1") {
            Some(2)
        } else if str_eq(name, "Digit2") {
            Some(3)
        } else if str_eq(name, "Digit3") {
            Some(4)
        } else if str_eq(name, "Digit4") {
            Some(5)
        } else if str_eq(name, "Digit5") {
            Some(6)
        } else if str_eq(name, "Digit6") {
            Some(7)
        } else if str_eq(name, "Digit7") {
            Some(8)
        } else if str_eq(name, "Digit8") {
            Some(9)
        } else if str_eq(name, "Digit9") {
            Some(10)
        } else if str_eq(name, "Digit0") {
            Some(11)
        } else if str_eq(name, "Period") {
            Some(52)
        } else if str_eq(name, "IntlRo") {
            Some(89)
        } else if str_eq(name, "PageUp") {
            Some(104)
        } else if str_eq(name, "Insert") {
            Some(110)
        } else if str_eq(name, "Delete") {
            Some(111)
        } else {
            None
        }
    } else if len == 7 {
        if str_eq(name, "AltLeft") {
            Some(56)
        } else if str_eq(name, "NumLock") {
            Some(69)
        } else if str_eq(name, "Numpad7") {
            Some(71)
        } else if str_eq(name, "Numpad8") {
            Some(72)
        } else if str_eq(name, "Numpad9") {
            Some(73)
        } else if str_eq(name, "Numpad4") {
            Some(75)
        } else if str_eq(name, "Numpad5") {
            Some(76)
        } else if str_eq(name, "Numpad6") {
            Some(77)
        } else if str_eq(name, "Numpad1") {
            Some(79)
        } else if str_eq(name, "Numpad2") {
            Some(80)
        } else if str_eq(name, "Numpad3") {
            Some(81)
        } else if str_eq(name, "Numpad0") {
            Some(82)
        } else if str_eq(name, "Convert") {
            Some(92)
        } else if str_eq(name, "ArrowUp") {
            Some(103)
        } else {
            None
        }
    } else if len == 8 {
        if str_eq(name, "CapsLock") {
            Some(58)
        } else if str_eq(name, "KanaMode") {
            Some(93)
        } else if str_eq(name, "AltRight") {
            Some(100)
        } else if str_eq(name, "PageDown") {
            Some(109)
        } else {
            None
        }
    } else if len == 9 {
        if str_eq(name, "Backspace") {
            Some(14)
        } else if str_eq(name, "Semicolon") {
            Some(39)
        } else if str_eq(name, "Backquote") {
            Some(41)
        } else if str_eq(name, "ShiftLeft") {
            Some(42)
        } else if str_eq(name, "Backslash") {
            Some(43)
        } else if str_eq(name, "NumpadAdd") {
            Some(78)
        } else if str_eq(name, "ArrowLeft") {
            Some(105)
        } else if str_eq(name, "ArrowDown") {
            Some(108)
        } else if str_eq(name, "SuperLeft") {
            Some(125)
        } else {
            None
        }
    } else if len == 10 {
        if str_eq(name, "ShiftRight") {
            Some(54)
        } else if str_eq(name, "ScrollLock") {
            Some(70)
        } else if str_eq(name, "NonConvert") {
            Some(94)
        } else if str_eq(name, "ArrowRight") {
            Some(106)
        } else if str_eq(name, "SuperRight") {
            Some(126)
        } else {
            None
        }
    } else if len == 11 {
        if str_eq(name, "BracketLeft") {
            Some(26)
        } else if str_eq(name, "ControlLeft") {
            Some(29)
        } else if str_eq(name, "NumpadEnter") {
            Some(96)
        } else if str_eq(name, "PrintScreen") {
            Some(99)
        } else if str_eq(name, "ContextMenu") {
            Some(127)
        } else if str_eq(name, "NumpadComma") {
            Some(121)
        } else if str_eq(name, "NumpadEqual") {
            Some(117)
        } else {
            None
        }
    } else if len == 12 {
        if str_eq(name, "BracketRight") {
            Some(27)
        } else if str_eq(name, "ControlRight") {
            Some(97)
        } else if str_eq(name, "NumpadDivide") {
            Some(98)
        } else {
            None
        }
    } else if len == 13 {
        if str_eq(name, "NumpadDecimal") {
            Some(83)
        } else if str_eq(name, "IntlBackslash") {
            Some(86)
        } else {
            None
        }
    } else if len == 14 {
        if str_eq(name, "NumpadMultiply") {
            Some(55)
        } else if str_eq(name, "NumpadSubtract") {
            Some(74)
        } else {
            None
        }
    } else {
        None
    }
}

/// The key name for an evdev scancode, for the scancodes that have one.
pub fn key_name_of(code: u16) -> (r: Option<&'static str>)
    ensures
        match r {
            Some(t) => key_code_name(code) == Some(t@),
            None => key_code_name(code) is None,
        },
{
    if code == 1 {
        Some("Escape")
    } else if code == 2 {
        Some("Digit1")
    } else if code == 3 {
        Some("Digit2")
    } else if code == 4 {
        Some("Digit3")
    } else if code == 5 {
        Some("Digit4")
    } else if code == 6 {
        Some("Digit5")
    } else if code == 7 {
        Some("Digit6")
    } else if code == 8 {
        Some("Digit7")
    } else if code == 9 {
        Some("Digit8")
    } else if code == 10 {
        Some("Digit9")
    } else if code == 11 {
        Some("Digit0")
    } else if code == 12 {
        Some("Minus")
    } else if code == 13 {
        Some("Equal")
    } else if code == 14 {
        Some("Backspace")
    } else if code == 15 {
        Some("Tab")
    } else if code == 16 {
        Some("KeyQ")
    } else if code == 17 {
        Some("KeyW")
    } else if code == 18 {
        Some("KeyE")
    } else if code == 19 {
        Some("KeyR")
    } else if code == 20 {
        Some("KeyT")
    } else if code == 21 {
        Some("KeyY")
    } else if code == 22 {
        Some("KeyU")
    } else if code == 23 {
        Some("KeyI")
    } else if code == 24 {
        Some("KeyO")
    } else if code == 25 {
        Some("KeyP")
    } else if code == 26 {
        Some("BracketLeft")
    } else if code == 27 {
        Some("BracketRight")
    } else if code == 28 {
        Some("Enter")
    } else if code == 29 {
        Some("ControlLeft")
    } else if code == 30 {
        Some("KeyA")
    } else if code == 31 {
        Some("KeyS")
    } else if code == 32 {
        Some("KeyD")
    } else if code == 33 {
        Some("KeyF")
    } else if code == 34 {
        Some("KeyG")
    } else if code == 35 {
        Some("KeyH")
    } else if code == 36 {
        Some("KeyJ")
    } else if code == 37 {
        Some("KeyK")
    } else if code == 38 {
        Some("KeyL")
    } else if code == 39 {
        Some("Semicolon")
    } else if code == 40 {
        Some("Quote")
    } else if code == 41 {
        Some("Backquote")
    } else if code == 42 {
        Some("ShiftLeft")
    } else if code == 43 {
        Some("Backslash")
    } else if code == 44 {
        Some("KeyZ")
    } else if code == 45 {
        Some("KeyX")
    } else if code == 46 {
        Some("KeyC")
    } else if code == 47 {
        Some("KeyV")
    } else if code == 48 {
        Some("KeyB")
    } else if code == 49 {
        Some("KeyN")
    } else if code == 50 {
        Some("KeyM")
    } else if code == 51 {
        Some("Comma")
    } else if code == 52 {
        Some("Period")
    } else if code == 53 {
        Some("Slash")
    } else if code == 54 {
        Some("ShiftRight")
    } else if code == 55 {
        Some("NumpadMultiply")
    } else if code == 56 {
        Some("AltLeft")
    } else if code == 57 {
        Some("Space")
    } else if code == 58 {
        Some("CapsLock")
    } else if code == 59 {
        Some("F1")
    } else if code == 60 {
        Some("F2")
    } else if code == 61 {
        Some("F3")
    } else if code == 62 {
        Some("F4")
    } else if code == 63 {
        Some("F5")
    } else if code == 64 {
        Some("F6")
    } else if code == 65 {
        Some("F7")
    } else if code == 66 {
        Some("F8")
    } else if code == 67 {
        Some("F9")
    } else if code == 68 {
        Some("F10")
    } else if code == 69 {
        Some("NumLock")
    } else if code == 70 {
        Some("ScrollLock")
    } else if code == 71 {
        Some("Numpad7")
    } else if code == 72 {
        Some("Numpad8")
    } else if code == 73 {
        Some("Numpad9")
    } else if code == 74 {
        Some("NumpadSubtract")
    } else if code == 75 {
        Some("Numpad4")
    } else if code == 76 {
        Some("Numpad5")
    } else if code == 77 {
        Some("Numpad6")
    } else if code == 78 {
        Some("NumpadAdd")
    } else if code == 79 {
        Some("Numpad1")
    } else if code == 80 {
        Some("Numpad2")
    } else if code == 81 {
        Some("Numpad3")
    } else if code == 82 {
        Some("Numpad0")
    } else if code == 83 {
        Some("NumpadDecimal")
    } else if code == 85 {
        Some("Lang5")
    } else if code == 86 {
        Some("IntlBackslash")
    } else if code == 87 {
        Some("F11")
    } else if code == 88 {
        Some("F12")
    } else if code == 89 {
        Some("IntlRo")
    } else if code == 90 {
        Some("Lang3")
    } else if code == 91 {
        Some("Lang4")
    } else if code == 92 {
        Some("Convert")
    } else if code == 93 {
        Some("KanaMode")
    } else if code == 94 {
        Some("NonConvert")
    } else if code == 96 {
        Some("NumpadEnter")
    } else if code == 97 {
        Some("ControlRight")
    } else if code == 98 {
        Some("NumpadDivide")
    } else if code == 99 {
        Some("PrintScreen")
    } else if code == 100 {
        Some("AltRight")
    } else if code == 102 {
        Some("Home")
    } else if code == 103 {
        Some("ArrowUp")
    } else if code == 104 {
        Some("PageUp")
    } else if code == 105 {
        Some("ArrowLeft")
    } else if code == 106 {
        Some("ArrowRight")
    } else if code == 107 {
        Some("End")
    } else if code == 108 {
        Some("ArrowDown")
    } else if code == 109 {
        Some("PageDown")
    } else if code == 110 {
        Some("Insert")
    } else if code == 111 {
        Some("Delete")
    } else if code == 117 {
        Some("NumpadEqual")
    } else if code == 119 {
        Some("Pause")
    } else if code == 121 {
        Some("NumpadComma")
    } else if code == 122 {
        Some("Lang1")
    } else if code == 123 {
        Some("Lang2")
    } else if code == 125 {
        Some("SuperLeft")
    } else if code == 126 {
        Some("SuperRight")
    } else if code == 127 {
        Some("ContextMenu")
    } else if code == 138 {
        Some("Help")
    } else {
        None
    }
}

fn symbol_code(ch: char) -> (r: Option<u16>)
    ensures
        r == symbol_key_code(ch),
{
    if ch == '1' {
        Some(2)
    } else if ch == '2' {
        Some(3)
    } else if ch == '3' {
        Some(4)
    } else if ch == '4' {
        Some(5)
    } else if ch == '5' {
        Some(6)
    } else if ch == '6' {
        Some(7)
    } else if ch == '7' {
        Some(8)
    } else if ch == '8' {
        Some(9)
    } else if ch == '9' {
        Some(10)
    } else if ch == '0' {
        Some(11)
    } else if ch == ' ' {
        Some(57)
    } else if ch == '\t' {
        Some(15)
    } else if ch == '\n' {
        Some(28)
    } else if ch == '\r' {
        Some(28)
    } else if ch == '-' {
        Some(12)
    } else if ch == '=' {
        Some(13)
    } else if ch == '[' {
        Some(26)
    } else if ch == ']' {
        Some(27)
    } else if ch == '\\' {
        Some(43)
    } else if ch == ';' {
        Some(39)
    } else if ch == '\'' {
        Some(40)
    } else if ch == '`' {
        Some(41)
    } else if ch == ',' {
        Some(51)
    } else if ch == '.' {
        Some(52)
    } else if ch == '/' {
        Some(53)
    } else {
        None
    }
}

fn letter_code(ch: char) -> (r: Option<u16>)
    ensures
        r == letter_key_code(ch),
{
    if ch == 'a' || ch == 'A' {
        Some(30)
    } else if ch == 'b' || ch == 'B' {
        Some(48)
    } else if ch == 'c' || ch == 'C' {
        Some(46)
    } else if ch == 'd' || ch == 'D' {
        Some(32)
    } else if ch == 'e' || ch == 'E' {
        Some(18)
    } else if ch == 'f' || ch == 'F' {
        Some(33)
    } else if ch == 'g' || ch == 'G' {
        Some(34)
    } else if ch == 'h' || ch == 'H' {
        Some(35)
    } else if ch == 'i' || ch == 'I' {
        Some(23)
    } else if ch == 'j' || ch == 'J' {
        Some(36)
    } else if ch == 'k' || ch == 'K' {
        Some(37)
    } else if ch == 'l' || ch == 'L' {
        Some(38)
    } else if ch == 'm' || ch == 'M' {
        Some(50)
    } else if ch == 'n' || ch == 'N' {
        Some(49)
    } else if ch == 'o' || ch == 'O' {
        Some(24)
    } else if ch == 'p' || ch == 'P' {
        Some(25)
    } else if ch == 'q' || ch == 'Q' {
        Some(16)
    } else if ch == 'r' || ch == 'R' {
        Some(19)
    } else if ch == 's' || ch == 'S' {
        Some(31)
    } else if ch == 't' || ch == 'T' {
        Some(20)
    } else if ch == 'u' || ch == 'U' {
        Some(22)
    } else if ch == 'v' || ch == 'V' {
        Some(47)
    } else if ch == 'w' || ch == 'W' {
        Some(17)
    } else if ch == 'x' || ch == 'X' {
        Some(45)
    } else if ch == 'y' || ch == 'Y' {
        Some(21)
    } else if ch == 'z' || ch == 'Z' {
        Some(44)
    } else {
        None
    }
}

fn char_code(name: &str) -> (r: Option<u16>)
    ensures
        r == char_key_code(name@),
{
    if name.unicode_len() != 1 {
        return None;
    }
    let ch = name.get_char(0);
    match letter_code(ch) {
        Some(c) => Some(c),
        None => symbol_code(ch),
    }
}

/// Parse a logical key name into a Linux evdev scancode.
///
/// Supports the `evdev:N` format (raw scancode), common logical names like
/// "Space", "Enter", "Escape", and single characters.
pub fn parse_key_name(name: &str) -> (r: Option<u16>)
    ensures
        r == key_name_spec(name@),
{
    if let Some(num) = strip_prefix(name, "evdev:") {
        return match parse_uint(num, 65535) {
            Some(v) => Some(v as u16),
            None => None,
        };
    }
    match named_code(name) {
        Some(c) => Some(c),
        None => char_code(name),
    }
}

/// Parse a mouse button reference such as "mouse 3" from an action string.
/// Returns the wire-protocol button number.
pub fn parse_mouse_button(name: &str) -> (r: Option<u8>)
    ensures
        r == mouse_button_spec(name@),
{
    match strip_prefix(name, "mouse ") {
        Some(rest) => {
            let num = trim(rest);
            match parse_uint(num, 255) {
                Some(v) => Some(v as u8),
                None => None,
            }
        },
        None => None,
    }
}


/// Every named key's name is recognised by `parse_key_name` as that key's
/// scancode: the table is read the same way in both directions.
#[verifier::spinoff_prover]
#[verifier::rlimit(100)]
pub proof fn lemma_named_key_roundtrip(c: u16)
    requires
        key_code_name(c) is Some,
    ensures
        named_key_code(key_code_name(c).unwrap()) == Some(c),
        !has_prefix(key_code_name(c).unwrap(), "evdev:"@),
{
    reveal_strlit("evdev:");
    if c == 1 {
        assert(named_key_code("Escape"@) == Some(1u16) && !has_prefix("Escape"@, "evdev:"@)) by {
            reveal_strlit("Escape");
            assert("Escape"@.take(6)[0] != "evdev:"@[0]);
        }
    }
    if c == 2 {
        assert(named_key_code("Digit1"@) == Some(2u16) && !has_prefix("Digit1"@, "evdev:"@)) by {
            reveal_strlit("Digit1");
            reveal_strlit("Escape");
            assert("Digit1"@[0] != "Escape"@[0]);
            assert("Digit1"@.take(6)[0] != "evdev:"@[0]);
        }
    }
    if c == 3 {
        assert(named_key_code("Digit2"@) == Some(3u16) && !has_prefix("Digit2"@, "evdev:"@)) by {
            reveal_strlit("Digit2");
            reveal_strlit("Escape");
            assert("Digit2"@[0] != "Escape"@[0]);
            reveal_strlit("Digit1");
            assert("Digit2"@[5] != "Digit1"@[5]);
            assert("Digit2"@.take(6)[0] != "evdev:"@[0]);
        }
    }
    if c == 4 {
        assert(named_key_code("Digit3"@) == Some(4u16) && !has_prefix("Digit3"@, "evdev:"@)) by {
            reveal_strlit("Digit3");
            reveal_strlit("Escape");
            assert("Digit3"@[0] != "Escape"@[0]);
            reveal_strlit("Digit1");
            assert("Digit3"@[5] != "Digit1"@[5]);
            reveal_strlit("Digit2");
            assert("Digit3"@[5] != "Digit2"@[5]);
            assert("Digit3"@.take(6)[0] != "evdev:"@[0]);
        }
    }
    if c == 5 {
        assert(named_key_code("Digit4"@) == Some(5u16) && !has_prefix("Digit4"@, "evdev:"@)) by {
            reveal_strlit("Digit4");
            reveal_strlit("Escape");
            assert("Digit4"@[0] != "Escape"@[0]);
            reveal_strlit("Digit1");
            assert("Digit4"@[5] != "Digit1"@[5]);
            reveal_strlit("Digit2");
            assert("Digit4"@[5] != "Digit2"@[5]);
            reveal_strlit("Digit3");
            assert("Digit4"@[5] != "Digit3"@[5]);
            assert("Digit4"@.take(6)[0] != "evdev:"@[0]);
        }
    }
    if c == 6 {
        assert(named_key_code("Digit5"@) == Some(6u16) && !has_prefix("Digit5"@, "evdev:"@)) by {
            reveal_strlit("Digit5");
            reveal_strlit("Escape");
            assert("Digit5"@[0] != "Escape"@[0]);
            reveal_strlit("Digit1");
            assert("Digit5"@[5] != "Digit1"@[5]);
            reveal_strlit("Digit2");
            assert("Digit5"@[5] != "Digit2"@[5]);
            reveal_strlit("Digit3");
            assert("Digit5"@[5] != "Digit3"@[5]);
            reveal_strlit("Digit4");
            assert("Digit5"@[5] != "Digit4"@[5]);
            assert("Digit5"@.take(6)[0] != "evdev:"@[0]);
        }
    }
    if c == 7 {
        assert(named_key_code("Digit6"@) == Some(7u16) && !has_prefix("Digit6"@, "evdev:"@)) by {
            reveal_strlit("Digit6");
            reveal_strlit("Escape");
            assert("Digit6"@[0] != "Escape"@[0]);
            reveal_strlit("Digit1");
            assert("Digit6"@[5] != "Digit1"@[5]);
            reveal_strlit("Digit2");
            assert("Digit6"@[5] != "Digit2"@[5]);
            reveal_strlit("Digit3");
            assert("Digit6"@[5] != "Digit3"@[5]);
            reveal_strlit("Digit4");
            assert("Digit6"@[5] != "Digit4"@[5]);
            reveal_strlit("Digit5");
            assert("Digit6"@[5] != "Digit5"@[5]);
            assert("Digit6"@.take(6)[0] != "evdev:"@[0]);
        }
    }
    if c == 8 {
        assert(named_key_code("Digit7"@) == Some(8u16) && !has_prefix("Digit7"@, "evdev:"@)) by {
            reveal_strlit("Digit7");
            reveal_strlit("Escape");
            assert("Digit7"@[0] != "Escape"@[0]);
            reveal_strlit("Digit1");
            assert("Digit7"@[5] != "Digit1"@[5]);
            reveal_strlit("Digit2");
            assert("Digit7"@[5] != "Digit2"@[5]);
            reveal_strlit("Digit3");
            assert("Digit7"@[5] != "Digit3"@[5]);
            reveal_strlit("Digit4");
            assert("Digit7"@[5] != "Digit4"@[5]);
            reveal_strlit("Digit5");
            assert("Digit7"@[5] != "Digit5"@[5]);
            reveal_strlit("Digit6");
            assert("Digit7"@[5] != "Digit6"@[5]);
            assert("Digit7"@.take(6)[0] != "evdev:"@[0]);
        }
    }
    if c == 9 {
        assert(named_key_code("Digit8"@) == Some(9u16) && !has_prefix("Digit8"@, "evdev:"@)) by {
            reveal_strlit("Digit8");
            reveal_strlit("Escape");
            assert("Digit8"@[0] != "Escape"@[0]);
            reveal_strlit("Digit1");
            assert("Digit8"@[5] != "Digit1"@[5]);
            reveal_strlit("Digit2");
            assert("Digit8"@[5] != "Digit2"@[5]);
            reveal_strlit("Digit3");
            assert("Digit8"@[5] != "Digit3"@[5]);
            reveal_strlit("Digit4");
            assert("Digit8"@[5] != "Digit4"@[5]);
            reveal_strlit("Digit5");
            assert("Digit8"@[5] != "Digit5"@[5]);
            reveal_strlit("Digit6");
            assert("Digit8"@[5] != "Digit6"@[5]);
            reveal_strlit("Digit7");
            assert("Digit8"@[5] != "Digit7"@[5]);
            assert("Digit8"@.take(6)[0] != "evdev:"@[0]);
        }
    }
    if c == 10 {
        assert(named_key_code("Digit9"@) == Some(10u16) && !has_prefix("Digit9"@, "evdev:"@)) by {
            reveal_strlit("Digit9");
            reveal_strlit("Escape");
            assert("Digit9"@[0] != "Escape"@[0]);
            reveal_strlit("Digit1");
            assert("Digit9"@[5] != "Digit1"@[5]);
            reveal_strlit("Digit2");
            assert("Digit9"@[5] != "Digit2"@[5]);
            reveal_strlit("Digit3");
            assert("Digit9"@[5] != "Digit3"@[5]);
            reveal_strlit("Digit4");
            assert("Digit9"@[5] != "Digit4"@[5]);
            reveal_strlit("Digit5");
            assert("Digit9"@[5] != "Digit5"@[5]);
            reveal_strlit("Digit6");
            assert("Digit9"@[5] != "Digit6"@[5]);
            reveal_strlit("Digit7");
            assert("Digit9"@[5] != "Digit7"@[5]);
            reveal_strlit("Digit8");
            assert("Digit9"@[5] != "Digit8"@[5]);
            assert("Digit9"@.take(6)[0] != "evdev:"@[0]);
        }
    }
    if c == 11 {
        assert(named_key_code("Digit0"@) == Some(11u16) && !has_prefix("Digit0"@, "evdev:"@)) by {
            reveal_strlit("Digit0");
            reveal_strlit("Escape");
            assert("Digit0"@[0] != "Escape"@[0]);
            reveal_strlit("Digit1");
            assert("Digit0"@[5] != "Digit1"@[5]);
            reveal_strlit("Digit2");
            assert("Digit0"@[5] != "Digit2"@[5]);
            reveal_strlit("Digit3");
            assert("Digit0"@[5] != "Digit3"@[5]);
            reveal_strlit("Digit4");
            assert("Digit0"@[5] != "Digit4"@[5]);
            reveal_strlit("Digit5");
            assert("Digit0"@[5] != "Digit5"@[5]);
            reveal_strlit("Digit6");
            assert("Digit0"@[5] != "Digit6"@[5]);
            reveal_strlit("Digit7");
            assert("Digit0"@[5] != "Digit7"@[5]);
            reveal_strlit("Digit8");
            assert("Digit0"@[5] != "Digit8"@[5]);
            reveal_strlit("Digit9");
            assert("Digit0"@[5] != "Digit9"@[5]);
            assert("Digit0"@.take(6)[0] != "evdev:"@[0]);
        }
    }
    if c == 12 {
        assert(named_key_code("Minus"@) == Some(12u16) && !has_prefix("Minus"@, "evdev:"@)) by {
            reveal_strlit("Minus");
        }
    }
    if c == 13 {
        assert(named_key_code("Equal"@) == Some(13u16) && !has_prefix("Equal"@, "evdev:"@)) by {
            reveal_strlit("Equal");
            reveal_strlit("Minus");
            assert("Equal"@[0] != "Minus"@[0]);
        }
    }
    if c == 14 {
        assert(named_key_code("Backspace"@) == Some(14u16) && !has_prefix("Backspace"@, "evdev:"@)) by {
            reveal_strlit("Backspace");
            assert("Backspace"@.take(6)[0] != "evdev:"@[0]);
        }
    }
    if c == 15 {
        assert(named_key_code("Tab"@) == Some(15u16) && !has_prefix("Tab"@, "evdev:"@)) by {
            reveal_strlit("Tab");
        }
    }
    if c == 16 {
        assert(named_key_code("KeyQ"@) == Some(16u16) && !has_prefix("KeyQ"@, "evdev:"@)) by {
            reveal_strlit("KeyQ");
        }
    }
    if c == 17 {
        assert(named_key_code("KeyW"@) == Some(17u16) && !has_prefix("KeyW"@, "evdev:"@)) by {
            reveal_strlit("KeyW");
            reveal_strlit("KeyQ");
            assert("KeyW"@[3] != "KeyQ"@[3]);
        }
    }
    if c == 18 {
        assert(named_key_code("KeyE"@) == Some(18u16) && !has_prefix("KeyE"@, "evdev:"@)) by {
            reveal_strlit("KeyE");
            reveal_strlit("KeyQ");
            assert("KeyE"@[3] != "KeyQ"@[3]);
            reveal_strlit("KeyW");
            assert("KeyE"@[3] != "KeyW"@[3]);
        }
    }
    if c == 19 {
        assert(named_key_code("KeyR"@) == Some(19u16) && !has_prefix("KeyR"@, "evdev:"@)) by {
            reveal_strlit("KeyR");
            reveal_strlit("KeyQ");
            assert("KeyR"@[3] != "KeyQ"@[3]);
            reveal_strlit("KeyW");
            assert("KeyR"@[3] != "KeyW"@[3]);
            reveal_strlit("KeyE");
            assert("KeyR"@[3] != "KeyE"@[3]);
        }
    }
    if c == 20 {
        assert(named_key_code("KeyT"@) == Some(20u16) && !has_prefix("KeyT"@, "evdev:"@)) by {
            reveal_strlit("KeyT");
            reveal_strlit("KeyQ");
            assert("KeyT"@[3] != "KeyQ"@[3]);
            reveal_strlit("KeyW");
            assert("KeyT"@[3] != "KeyW"@[3]);
            reveal_strlit("KeyE");
            assert("KeyT"@[3] != "KeyE"@[3]);
            reveal_strlit("KeyR");
            assert("KeyT"@[3] != "KeyR"@[3]);
        }
    }
    if c == 21 {
        assert(named_key_code("KeyY"@) == Some(21u16) && !has_prefix("KeyY"@, "evdev:"@)) by {
            reveal_strlit("KeyY");
            reveal_strlit("KeyQ");
            assert("KeyY"@[3] != "KeyQ"@[3]);
            reveal_strlit("KeyW");
            assert("KeyY"@[3] != "KeyW"@[3]);
            reveal_strlit("KeyE");
            assert("KeyY"@[3] != "KeyE"@[3]);
            reveal_strlit("KeyR");
            assert("KeyY"@[3] != "KeyR"@[3]);
            reveal_strlit("KeyT");
            assert("KeyY"@[3] != "KeyT"@[3]);
        }
    }
    if c == 22 {
        assert(named_key_code("KeyU"@) == Some(22u16) && !has_prefix("KeyU"@, "evdev:"@)) by {
            reveal_strlit("KeyU");
            reveal_strlit("KeyQ");
            assert("KeyU"@[3] != "KeyQ"@[3]);
            reveal_strlit("KeyW");
            assert("KeyU"@[3] != "KeyW"@[3]);
            reveal_strlit("KeyE");
            assert("KeyU"@[3] != "KeyE"@[3]);
            reveal_strlit("KeyR");
            assert("KeyU"@[3] != "KeyR"@[3]);
            reveal_strlit("KeyT");
            assert("KeyU"@[3] != "KeyT"@[3]);
            reveal_strlit("KeyY");
            assert("KeyU"@[3] != "KeyY"@[3]);
        }
    }
    if c == 23 {
        assert(named_key_code("KeyI"@) == Some(23u16) && !has_prefix("KeyI"@, "evdev:"@)) by {
            reveal_strlit("KeyI");
            reveal_strlit("KeyQ");
            assert("KeyI"@[3] != "KeyQ"@[3]);
            reveal_strlit("KeyW");
            assert("KeyI"@[3] != "KeyW"@[3]);
            reveal_strlit("KeyE");
            assert("KeyI"@[3] != "KeyE"@[3]);
            reveal_strlit("KeyR");
            assert("KeyI"@[3] != "KeyR"@[3]);
            reveal_strlit("KeyT");
            assert("KeyI"@[3] != "KeyT"@[3]);
            reveal_strlit("KeyY");
            assert("KeyI"@[3] != "KeyY"@[3]);
            reveal_strlit("KeyU");
            assert("KeyI"@[3] != "KeyU"@[3]);
        }
    }
    if c == 24 {
        assert(named_key_code("KeyO"@) == Some(24u16) && !has_prefix("KeyO"@, "evdev:"@)) by {
            reveal_strlit("KeyO");
            reveal_strlit("KeyQ");
            assert("KeyO"@[3] != "KeyQ"@[3]);
            reveal_strlit("KeyW");
            assert("KeyO"@[3] != "KeyW"@[3]);
            reveal_strlit("KeyE");
            assert("KeyO"@[3] != "KeyE"@[3]);
            reveal_strlit("KeyR");
            assert("KeyO"@[3] != "KeyR"@[3]);
            reveal_strlit("KeyT");
            assert("KeyO"@[3] != "KeyT"@[3]);
            reveal_strlit("KeyY");
            assert("KeyO"@[3] != "KeyY"@[3]);
            reveal_strlit("KeyU");
            assert("KeyO"@[3] != "KeyU"@[3]);
            reveal_strlit("KeyI");
            assert("KeyO"@[3] != "KeyI"@[3]);
        }
    }
    if c == 25 {
        assert(named_key_code("KeyP"@) == Some(25u16) && !has_prefix("KeyP"@, "evdev:"@)) by {
            reveal_strlit("KeyP");
            reveal_strlit("KeyQ");
            assert("KeyP"@[3] != "KeyQ"@[3]);
            reveal_strlit("KeyW");
            assert("KeyP"@[3] != "KeyW"@[3]);
            reveal_strlit("KeyE");
            assert("KeyP"@[3] != "KeyE"@[3]);
            reveal_strlit("KeyR");
            assert("KeyP"@[3] != "KeyR"@[3]);
            reveal_strlit("KeyT");
            assert("KeyP"@[3] != "KeyT"@[3]);
            reveal_strlit("KeyY");
            assert("KeyP"@[3] != "KeyY"@[3]);
            reveal_strlit("KeyU");
            assert("KeyP"@[3] != "KeyU"@[3]);
            reveal_strlit("KeyI");
            assert("KeyP"@[3] != "KeyI"@[3]);
            reveal_strlit("KeyO");
            assert("KeyP"@[3] != "KeyO"@[3]);
        }
    }
    if c == 26 {
        assert(named_key_code("BracketLeft"@) == Some(26u16) && !has_prefix("BracketLeft"@, "evdev:"@)) by {
            reveal_strlit("BracketLeft");
            assert("BracketLeft"@.take(6)[0] != "evdev:"@[0]);
        }
    }
    if c == 27 {
        assert(named_key_code("BracketRight"@) == Some(27u16) && !has_prefix("BracketRight"@, "evdev:"@)) by {
            reveal_strlit("BracketRight");
            assert("BracketRight"@.take(6)[0] != "evdev:"@[0]);
        }
    }
    if c == 28 {
        assert(named_key_code("Enter"@) == Some(28u16) && !has_prefix("Enter"@, "evdev:"@)) by {
            reveal_strlit("Enter");
            reveal_strlit("Minus");
            assert("Enter"@[0] != "Minus"@[0]);
            reveal_strlit("Equal");
            assert("Enter"@[1] != "Equal"@[1]);
        }
    }
    if c == 29 {
        assert(named_key_code("ControlLeft"@) == Some(29u16) && !has_prefix("ControlLeft"@, "evdev:"@)) by {
            reveal_strlit("ControlLeft");
            reveal_strlit("BracketLeft");
            assert("ControlLeft"@[0] != "BracketLeft"@[0]);
            assert("ControlLeft"@.take(6)[0] != "evdev:"@[0]);
        }
    }
    if c == 30 {
        assert(named_key_code("KeyA"@) == Some(30u16) && !has_prefix("KeyA"@, "evdev:"@)) by {
            reveal_strlit("KeyA");
            reveal_strlit("KeyQ");
            assert("KeyA"@[3] != "KeyQ"@[3]);
            reveal_strlit("KeyW");
            assert("KeyA"@[3] != "KeyW"@[3]);
            reveal_strlit("KeyE");
            assert("KeyA"@[3] != "KeyE"@[3]);
            reveal_strlit("KeyR");
            assert("KeyA"@[3] != "KeyR"@[3]);
            reveal_strlit("KeyT");
            assert("KeyA"@[3] != "KeyT"@[3]);
            reveal_strlit("KeyY");
            assert("KeyA"@[3] != "KeyY"@[3]);
            reveal_strlit("KeyU");
            assert("KeyA"@[3] != "KeyU"@[3]);
            reveal_strlit("KeyI");
            assert("KeyA"@[3] != "KeyI"@[3]);
            reveal_strlit("KeyO");
            assert("KeyA"@[3] != "KeyO"@[3]);
            reveal_strlit("KeyP");
            assert("KeyA"@[3] != "KeyP"@[3]);
        }
    }
    if c == 31 {
        assert(named_key_code("KeyS"@) == Some(31u16) && !has_prefix("KeyS"@, "evdev:"@)) by {
            reveal_strlit("KeyS");
            reveal_strlit("KeyQ");
            assert("KeyS"@[3] != "KeyQ"@[3]);
            reveal_strlit("KeyW");
            assert("KeyS"@[3] != "KeyW"@[3]);
            reveal_strlit("KeyE");
            assert("KeyS"@[3] != "KeyE"@[3]);
            reveal_strlit("KeyR");
            assert("KeyS"@[3] != "KeyR"@[3]);
            reveal_strlit("KeyT");
            assert("KeyS"@[3] != "KeyT"@[3]);
            reveal_strlit("KeyY");
            assert("KeyS"@[3] != "KeyY"@[3]);
            reveal_strlit("KeyU");
            assert("KeyS"@[3] != "KeyU"@[3]);
            reveal_strlit("KeyI");
            assert("KeyS"@[3] != "KeyI"@[3]);
            reveal_strlit("KeyO");
            assert("KeyS"@[3] != "KeyO"@[3]);
            reveal_strlit("KeyP");
            assert("KeyS"@[3] != "KeyP"@[3]);
            reveal_strlit("KeyA");
            assert("KeyS"@[3] != "KeyA"@[3]);
        }
    }
    if c == 32 {
        assert(named_key_code("KeyD"@) == Some(32u16) && !has_prefix("KeyD"@, "evdev:"@)) by {
            reveal_strlit("KeyD");
            reveal_strlit("KeyQ");
            assert("KeyD"@[3] != "KeyQ"@[3]);
            reveal_strlit("KeyW");
            assert("KeyD"@[3] != "KeyW"@[3]);
            reveal_strlit("KeyE");
            assert("KeyD"@[3] != "KeyE"@[3]);
            reveal_strlit("KeyR");
            assert("KeyD"@[3] != "KeyR"@[3]);
            reveal_strlit("KeyT");
            assert("KeyD"@[3] != "KeyT"@[3]);
            reveal_strlit("KeyY");
            assert("KeyD"@[3] != "KeyY"@[3]);
            reveal_strlit("KeyU");
            assert("KeyD"@[3] != "KeyU"@[3]);
            reveal_strlit("KeyI");
            assert("KeyD"@[3] != "KeyI"@[3]);
            reveal_strlit("KeyO");
            assert("KeyD"@[3] != "KeyO"@[3]);
            reveal_strlit("KeyP");
            assert("KeyD"@[3] != "KeyP"@[3]);
            reveal_strlit("KeyA");
            assert("KeyD"@[3] != "KeyA"@[3]);
            reveal_strlit("KeyS");
            assert("KeyD"@[3] != "KeyS"@[3]);
        }
    }
    if c == 33 {
        assert(named_key_code("KeyF"@) == Some(33u16) && !has_prefix("KeyF"@, "evdev:"@)) by {
            reveal_strlit("KeyF");
            reveal_strlit("KeyQ");
            assert("KeyF"@[3] != "KeyQ"@[3]);
            reveal_strlit("KeyW");
            assert("KeyF"@[3] != "KeyW"@[3]);
            reveal_strlit("KeyE");
            assert("KeyF"@[3] != "KeyE"@[3]);
            reveal_strlit("KeyR");
            assert("KeyF"@[3] != "KeyR"@[3]);
            reveal_strlit("KeyT");
            assert("KeyF"@[3] != "KeyT"@[3]);
            reveal_strlit("KeyY");
            assert("KeyF"@[3] != "KeyY"@[3]);
            reveal_strlit("KeyU");
            assert("KeyF"@[3] != "KeyU"@[3]);
            reveal_strlit("KeyI");
            assert("KeyF"@[3] != "KeyI"@[3]);
            reveal_strlit("KeyO");
            assert("KeyF"@[3] != "KeyO"@[3]);
            reveal_strlit("KeyP");
            assert("KeyF"@[3] != "KeyP"@[3]);
            reveal_strlit("KeyA");
            assert("KeyF"@[3] != "KeyA"@[3]);
            reveal_strlit("KeyS");
            assert("KeyF"@[3] != "KeyS"@[3]);
            reveal_strlit("KeyD");
            assert("KeyF"@[3] != "KeyD"@[3]);
        }
    }
    if c == 34 {
        assert(named_key_code("KeyG"@) == Some(34u16) && !has_prefix("KeyG"@, "evdev:"@)) by {
            reveal_strlit("KeyG");
            reveal_strlit("KeyQ");
            assert("KeyG"@[3] != "KeyQ"@[3]);
            reveal_strlit("KeyW");
            assert("KeyG"@[3] != "KeyW"@[3]);
            reveal_strlit("KeyE");
            assert("KeyG"@[3] != "KeyE"@[3]);
            reveal_strlit("KeyR");
            assert("KeyG"@[3] != "KeyR"@[3]);
            reveal_strlit("KeyT");
            assert("KeyG"@[3] != "KeyT"@[3]);
            reveal_strlit("KeyY");
            assert("KeyG"@[3] != "KeyY"@[3]);
            reveal_strlit("KeyU");
            assert("KeyG"@[3] != "KeyU"@[3]);
            reveal_strlit("KeyI");
            assert("KeyG"@[3] != "KeyI"@[3]);
            reveal_strlit("KeyO");
            assert("KeyG"@[3] != "KeyO"@[3]);
            reveal_strlit("KeyP");
            assert("KeyG"@[3] != "KeyP"@[3]);
            reveal_strlit("KeyA");
            assert("KeyG"@[3] != "KeyA"@[3]);
            reveal_strlit("KeyS");
            assert("KeyG"@[3] != "KeyS"@[3]);
            reveal_strlit("KeyD");
            assert("KeyG"@[3] != "KeyD"@[3]);
            reveal_strlit("KeyF");
            assert("KeyG"@[3] != "KeyF"@[3]);
        }
    }
    if c == 35 {
        assert(named_key_code("KeyH"@) == Some(35u16) && !has_prefix("KeyH"@, "evdev:"@)) by {
            reveal_strlit("KeyH");
            reveal_strlit("KeyQ");
            assert("KeyH"@[3] != "KeyQ"@[3]);
            reveal_strlit("KeyW");
            assert("KeyH"@[3] != "KeyW"@[3]);
            reveal_strlit("KeyE");
            assert("KeyH"@[3] != "KeyE"@[3]);
            reveal_strlit("KeyR");
            assert("KeyH"@[3] != "KeyR"@[3]);
            reveal_strlit("KeyT");
            assert("KeyH"@[3] != "KeyT"@[3]);
            reveal_strlit("KeyY");
            assert("KeyH"@[3] != "KeyY"@[3]);
            reveal_strlit("KeyU");
            assert("KeyH"@[3] != "KeyU"@[3]);
            reveal_strlit("KeyI");
            assert("KeyH"@[3] != "KeyI"@[3]);
            reveal_strlit("KeyO");
            assert("KeyH"@[3] != "KeyO"@[3]);
            reveal_strlit("KeyP");
            assert("KeyH"@[3] != "KeyP"@[3]);
            reveal_strlit("KeyA");
            assert("KeyH"@[3] != "KeyA"@[3]);
            reveal_strlit("KeyS");
            assert("KeyH"@[3] != "KeyS"@[3]);
            reveal_strlit("KeyD");
            assert("KeyH"@[3] != "KeyD"@[3]);
            reveal_strlit("KeyF");
            assert("KeyH"@[3] != "KeyF"@[3]);
            reveal_strlit("KeyG");
            assert("KeyH"@[3] != "KeyG"@[3]);
        }
    }
    if c == 36 {
        assert(named_key_code("KeyJ"@) == Some(36u16) && !has_prefix("KeyJ"@, "evdev:"@)) by {
            reveal_strlit("KeyJ");
            reveal_strlit("KeyQ");
            assert("KeyJ"@[3] != "KeyQ"@[3]);
            reveal_strlit("KeyW");
            assert("KeyJ"@[3] != "KeyW"@[3]);
            reveal_strlit("KeyE");
            assert("KeyJ"@[3] != "KeyE"@[3]);
            reveal_strlit("KeyR");
            assert("KeyJ"@[3] != "KeyR"@[3]);
            reveal_strlit("KeyT");
            assert("KeyJ"@[3] != "KeyT"@[3]);
            reveal_strlit("KeyY");
            assert("KeyJ"@[3] != "KeyY"@[3]);
            reveal_strlit("KeyU");
            assert("KeyJ"@[3] != "KeyU"@[3]);
            reveal_strlit("KeyI");
            assert("KeyJ"@[3] != "KeyI"@[3]);
            reveal_strlit("KeyO");
            assert("KeyJ"@[3] != "KeyO"@[3]);
            reveal_strlit("KeyP");
            assert("KeyJ"@[3] != "KeyP"@[3]);
            reveal_strlit("KeyA");
            assert("KeyJ"@[3] != "KeyA"@[3]);
            reveal_strlit("KeyS");
            assert("KeyJ"@[3] != "KeyS"@[3]);
            reveal_strlit("KeyD");
            assert("KeyJ"@[3] != "KeyD"@[3]);
            reveal_strlit("KeyF");
            assert("KeyJ"@[3] != "KeyF"@[3]);
            reveal_strlit("KeyG");
            assert("KeyJ"@[3] != "KeyG"@[3]);
            reveal_strlit("KeyH");
            assert("KeyJ"@[3] != "KeyH"@[3]);
        }
    }
    if c == 37 {
        assert(named_key_code("KeyK"@) == Some(37u16) && !has_prefix("KeyK"@, "evdev:"@)) by {
            reveal_strlit("KeyK");
            reveal_strlit("KeyQ");
            assert("KeyK"@[3] != "KeyQ"@[3]);
            reveal_strlit("KeyW");
            assert("KeyK"@[3] != "KeyW"@[3]);
            reveal_strlit("KeyE");
            assert("KeyK"@[3] != "KeyE"@[3]);
            reveal_strlit("KeyR");
            assert("KeyK"@[3] != "KeyR"@[3]);
            reveal_strlit("KeyT");
            assert("KeyK"@[3] != "KeyT"@[3]);
            reveal_strlit("KeyY");
            assert("KeyK"@[3] != "KeyY"@[3]);
            reveal_strlit("KeyU");
            assert("KeyK"@[3] != "KeyU"@[3]);
            reveal_strlit("KeyI");
            assert("KeyK"@[3] != "KeyI"@[3]);
            reveal_strlit("KeyO");
            assert("KeyK"@[3] != "KeyO"@[3]);
            reveal_strlit("KeyP");
            assert("KeyK"@[3] != "KeyP"@[3]);
            reveal_strlit("KeyA");
            assert("KeyK"@[3] != "KeyA"@[3]);
            reveal_strlit("KeyS");
            assert("KeyK"@[3] != "KeyS"@[3]);
            reveal_strlit("KeyD");
            assert("KeyK"@[3] != "KeyD"@[3]);
            reveal_strlit("KeyF");
            assert("KeyK"@[3] != "KeyF"@[3]);
            reveal_strlit("KeyG");
            assert("KeyK"@[3] != "KeyG"@[3]);
            reveal_strlit("KeyH");
            assert("KeyK"@[3] != "KeyH"@[3]);
            reveal_strlit("KeyJ");
            assert("KeyK"@[3] != "KeyJ"@[3]);
        }
    }
    if c == 38 {
        assert(named_key_code("KeyL"@) == Some(38u16) && !has_prefix("KeyL"@, "evdev:"@)) by {
            reveal_strlit("KeyL");
            reveal_strlit("KeyQ");
            assert("KeyL"@[3] != "KeyQ"@[3]);
            reveal_strlit("KeyW");
            assert("KeyL"@[3] != "KeyW"@[3]);
            reveal_strlit("KeyE");
            assert("KeyL"@[3] != "KeyE"@[3]);
            reveal_strlit("KeyR");
            assert("KeyL"@[3] != "KeyR"@[3]);
            reveal_strlit("KeyT");
            assert("KeyL"@[3] != "KeyT"@[3]);
            reveal_strlit("KeyY");
            assert("KeyL"@[3] != "KeyY"@[3]);
            reveal_strlit("KeyU");
            assert("KeyL"@[3] != "KeyU"@[3]);
            reveal_strlit("KeyI");
            assert("KeyL"@[3] != "KeyI"@[3]);
            reveal_strlit("KeyO");
            assert("KeyL"@[3] != "KeyO"@[3]);
            reveal_strlit("KeyP");
            assert("KeyL"@[3] != "KeyP"@[3]);
            reveal_strlit("KeyA");
            assert("KeyL"@[3] != "KeyA"@[3]);
            reveal_strlit("KeyS");
            assert("KeyL"@[3] != "KeyS"@[3]);
            reveal_strlit("KeyD");
            assert("KeyL"@[3] != "KeyD"@[3]);
            reveal_strlit("KeyF");
            assert("KeyL"@[3] != "KeyF"@[3]);
            reveal_strlit("KeyG");
            assert("KeyL"@[3] != "KeyG"@[3]);
            reveal_strlit("KeyH");
            assert("KeyL"@[3] != "KeyH"@[3]);
            reveal_strlit("KeyJ");
            assert("KeyL"@[3] != "KeyJ"@[3]);
            reveal_strlit("KeyK");
            assert("KeyL"@[3] != "KeyK"@[3]);
        }
    }
    if c == 39 {
        assert(named_key_code("Semicolon"@) == Some(39u16) && !has_prefix("Semicolon"@, "evdev:"@)) by {
            reveal_strlit("Semicolon");
            reveal_strlit("Backspace");
            assert("Semicolon"@[0] != "Backspace"@[0]);
            assert("Semicolon"@.take(6)[0] != "evdev:"@[0]);
        }
    }
    if c == 40 {
        assert(named_key_code("Quote"@) == Some(40u16) && !has_prefix("Quote"@, "evdev:"@)) by {
            reveal_strlit("Quote");
            reveal_strlit("Minus");
            assert("Quote"@[0] != "Minus"@[0]);
            reveal_strlit("Equal");
            assert("Quote"@[0] != "Equal"@[0]);
            reveal_strlit("Enter");
            assert("Quote"@[0] != "Enter"@[0]);
        }
    }
    if c == 41 {
        assert(named_key_code("Backquote"@) == Some(41u16) && !has_prefix("Backquote"@, "evdev:"@)) by {
            reveal_strlit("Backquote");
            reveal_strlit("Backspace");
            assert("Backquote"@[4] != "Backspace"@[4]);
            reveal_strlit("Semicolon");
            assert("Backquote"@[0] != "Semicolon"@[0]);
            assert("Backquote"@.take(6)[0] != "evdev:"@[0]);
        }
    }
    if c == 42 {
        assert(named_key_code("ShiftLeft"@) == Some(42u16) && !has_prefix("ShiftLeft"@, "evdev:"@)) by {
            reveal_strlit("ShiftLeft");
            reveal_strlit("Backspace");
            assert("ShiftLeft"@[0] != "Backspace"@[0]);
            reveal_strlit("Semicolon");
            assert("ShiftLeft"@[1] != "Semicolon"@[1]);
            reveal_strlit("Backquote");
            assert("ShiftLeft"@[0] != "Backquote"@[0]);
            assert("ShiftLeft"@.take(6)[0] != "evdev:"@[0]);
        }
    }
    if c == 43 {
        assert(named_key_code("Backslash"@) == Some(43u16) && !has_prefix("Backslash"@, "evdev:"@)) by {
            reveal_strlit("Backslash");
            reveal_strlit("Backspace");
            assert("Backslash"@[5] != "Backspace"@[5]);
            reveal_strlit("Semicolon");
            assert("Backslash"@[0] != "Semicolon"@[0]);
            reveal_strlit("Backquote");
            assert("Backslash"@[4] != "Backquote"@[4]);
            reveal_strlit("ShiftLeft");
            assert("Backslash"@[0] != "ShiftLeft"@[0]);
            assert("Backslash"@.take(6)[0] != "evdev:"@[0]);
        }
    }
    if c == 44 {
        assert(named_key_code("KeyZ"@) == Some(44u16) && !has_prefix("KeyZ"@, "evdev:"@)) by {
            reveal_strlit("KeyZ");
            reveal_strlit("KeyQ");
            assert("KeyZ"@[3] != "KeyQ"@[3]);
            reveal_strlit("KeyW");
            assert("KeyZ"@[3] != "KeyW"@[3]);
            reveal_strlit("KeyE");
            assert("KeyZ"@[3] != "KeyE"@[3]);
            reveal_strlit("KeyR");
            assert("KeyZ"@[3] != "KeyR"@[3]);
            reveal_strlit("KeyT");
            assert("KeyZ"@[3] != "KeyT"@[3]);
            reveal_strlit("KeyY");
            assert("KeyZ"@[3] != "KeyY"@[3]);
            reveal_strlit("KeyU");
            assert("KeyZ"@[3] != "KeyU"@[3]);
            reveal_strlit("KeyI");
            assert("KeyZ"@[3] != "KeyI"@[3]);
            reveal_strlit("KeyO");
            assert("KeyZ"@[3] != "KeyO"@[3]);
            reveal_strlit("KeyP");
            assert("KeyZ"@[3] != "KeyP"@[3]);
            reveal_strlit("KeyA");
            assert("KeyZ"@[3] != "KeyA"@[3]);
            reveal_strlit("KeyS");
            assert("KeyZ"@[3] != "KeyS"@[3]);
            reveal_strlit("KeyD");
            assert("KeyZ"@[3] != "KeyD"@[3]);
            reveal_strlit("KeyF");
            assert("KeyZ"@[3] != "KeyF"@[3]);
            reveal_strlit("KeyG");
            assert("KeyZ"@[3] != "KeyG"@[3]);
            reveal_strlit("KeyH");
            assert("KeyZ"@[3] != "KeyH"@[3]);
            reveal_strlit("KeyJ");
            assert("KeyZ"@[3] != "KeyJ"@[3]);
            reveal_strlit("KeyK");
            assert("KeyZ"@[3] != "KeyK"@[3]);
            reveal_strlit("KeyL");
            assert("KeyZ"@[3] != "KeyL"@[3]);
        }
    }
    if c == 45 {
        assert(named_key_code("KeyX"@) == Some(45u16) && !has_prefix("KeyX"@, "evdev:"@)) by {
            reveal_strlit("KeyX");
            reveal_strlit("KeyQ");
            assert("KeyX"@[3] != "KeyQ"@[3]);
            reveal_strlit("KeyW");
            assert("KeyX"@[3] != "KeyW"@[3]);
            reveal_strlit("KeyE");
            assert("KeyX"@[3] != "KeyE"@[3]);
            reveal_strlit("KeyR");
            assert("KeyX"@[3] != "KeyR"@[3]);
            reveal_strlit("KeyT");
            assert("KeyX"@[3] != "KeyT"@[3]);
            reveal_strlit("KeyY");
            assert("KeyX"@[3] != "KeyY"@[3]);
            reveal_strlit("KeyU");
            assert("KeyX"@[3] != "KeyU"@[3]);
            reveal_strlit("KeyI");
            assert("KeyX"@[3] != "KeyI"@[3]);
            reveal_strlit("KeyO");
            assert("KeyX"@[3] != "KeyO"@[3]);
            reveal_strlit("KeyP");
            assert("KeyX"@[3] != "KeyP"@[3]);
            reveal_strlit("KeyA");
            assert("KeyX"@[3] != "KeyA"@[3]);
            reveal_strlit("KeyS");
            assert("KeyX"@[3] != "KeyS"@[3]);
            reveal_strlit("KeyD");
            assert("KeyX"@[3] != "KeyD"@[3]);
            reveal_strlit("KeyF");
            assert("KeyX"@[3] != "KeyF"@[3]);
            reveal_strlit("KeyG");
            assert("KeyX"@[3] != "KeyG"@[3]);
            reveal_strlit("KeyH");
            assert("KeyX"@[3] != "KeyH"@[3]);
            reveal_strlit("KeyJ");
            assert("KeyX"@[3] != "KeyJ"@[3]);
            reveal_strlit("KeyK");
            assert("KeyX"@[3] != "KeyK"@[3]);
            reveal_strlit("KeyL");
            assert("KeyX"@[3] != "KeyL"@[3]);
            reveal_strlit("KeyZ");
            assert("KeyX"@[3] != "KeyZ"@[3]);
        }
    }
    if c == 46 {
        assert(named_key_code("KeyC"@) == Some(46u16) && !has_prefix("KeyC"@, "evdev:"@)) by {
            reveal_strlit("KeyC");
            reveal_strlit("KeyQ");
            assert("KeyC"@[3] != "KeyQ"@[3]);
            reveal_strlit("KeyW");
            assert("KeyC"@[3] != "KeyW"@[3]);
            reveal_strlit("KeyE");
            assert("KeyC"@[3] != "KeyE"@[3]);
            reveal_strlit("KeyR");
            assert("KeyC"@[3] != "KeyR"@[3]);
            reveal_strlit("KeyT");
            assert("KeyC"@[3] != "KeyT"@[3]);
            reveal_strlit("KeyY");
            assert("KeyC"@[3] != "KeyY"@[3]);
            reveal_strlit("KeyU");
            assert("KeyC"@[3] != "KeyU"@[3]);
            reveal_strlit("KeyI");
            assert("KeyC"@[3] != "KeyI"@[3]);
            reveal_strlit("KeyO");
            assert("KeyC"@[3] != "KeyO"@[3]);
            reveal_strlit("KeyP");
            assert("KeyC"@[3] != "KeyP"@[3]);
            reveal_strlit("KeyA");
            assert("KeyC"@[3] != "KeyA"@[3]);
            reveal_strlit("KeyS");
            assert("KeyC"@[3] != "KeyS"@[3]);
            reveal_strlit("KeyD");
            assert("KeyC"@[3] != "KeyD"@[3]);
            reveal_strlit("KeyF");
            assert("KeyC"@[3] != "KeyF"@[3]);
            reveal_strlit("KeyG");
            assert("KeyC"@[3] != "KeyG"@[3]);
            reveal_strlit("KeyH");
            assert("KeyC"@[3] != "KeyH"@[3]);
            reveal_strlit("KeyJ");
            assert("KeyC"@[3] != "KeyJ"@[3]);
            reveal_strlit("KeyK");
            assert("KeyC"@[3] != "KeyK"@[3]);
            reveal_strlit("KeyL");
            assert("KeyC"@[3] != "KeyL"@[3]);
            reveal_strlit("KeyZ");
            assert("KeyC"@[3] != "KeyZ"@[3]);
            reveal_strlit("KeyX");
            assert("KeyC"@[3] != "KeyX"@[3]);
        }
    }
    if c == 47 {
        assert(named_key_code("KeyV"@) == Some(47u16) && !has_prefix("KeyV"@, "evdev:"@)) by {
            reveal_strlit("KeyV");
            reveal_strlit("KeyQ");
            assert("KeyV"@[3] != "KeyQ"@[3]);
            reveal_strlit("KeyW");
            assert("KeyV"@[3] != "KeyW"@[3]);
            reveal_strlit("KeyE");
            assert("KeyV"@[3] != "KeyE"@[3]);
            reveal_strlit("KeyR");
            assert("KeyV"@[3] != "KeyR"@[3]);
            reveal_strlit("KeyT");
            assert("KeyV"@[3] != "KeyT"@[3]);
            reveal_strlit("KeyY");
            assert("KeyV"@[3] != "KeyY"@[3]);
            reveal_strlit("KeyU");
            assert("KeyV"@[3] != "KeyU"@[3]);
            reveal_strlit("KeyI");
            assert("KeyV"@[3] != "KeyI"@[3]);
            reveal_strlit("KeyO");
            assert("KeyV"@[3] != "KeyO"@[3]);
            reveal_strlit("KeyP");
            assert("KeyV"@[3] != "KeyP"@[3]);
            reveal_strlit("KeyA");
            assert("KeyV"@[3] != "KeyA"@[3]);
            reveal_strlit("KeyS");
            assert("KeyV"@[3] != "KeyS"@[3]);
            reveal_strlit("KeyD");
            assert("KeyV"@[3] != "KeyD"@[3]);
            reveal_strlit("KeyF");
            assert("KeyV"@[3] != "KeyF"@[3]);
            reveal_strlit("KeyG");
            assert("KeyV"@[3] != "KeyG"@[3]);
            reveal_strlit("KeyH");
            assert("KeyV"@[3] != "KeyH"@[3]);
            reveal_strlit("KeyJ");
            assert("KeyV"@[3] != "KeyJ"@[3]);
            reveal_strlit("KeyK");
            assert("KeyV"@[3] != "KeyK"@[3]);
            reveal_strlit("KeyL");
            assert("KeyV"@[3] != "KeyL"@[3]);
            reveal_strlit("KeyZ");
            assert("KeyV"@[3] != "KeyZ"@[3]);
            reveal_strlit("KeyX");
            assert("KeyV"@[3] != "KeyX"@[3]);
            reveal_strlit("KeyC");
            assert("KeyV"@[3] != "KeyC"@[3]);
        }
    }
    if c == 48 {
        assert(named_key_code("KeyB"@) == Some(48u16) && !has_prefix("KeyB"@, "evdev:"@)) by {
            reveal_strlit("KeyB");
            reveal_strlit("KeyQ");
            assert("KeyB"@[3] != "KeyQ"@[3]);
            reveal_strlit("KeyW");
            assert("KeyB"@[3] != "KeyW"@[3]);
            reveal_strlit("KeyE");
            assert("KeyB"@[3] != "KeyE"@[3]);
            reveal_strlit("KeyR");
            assert("KeyB"@[3] != "KeyR"@[3]);
            reveal_strlit("KeyT");
            assert("KeyB"@[3] != "KeyT"@[3]);
            reveal_strlit("KeyY");
            assert("KeyB"@[3] != "KeyY"@[3]);
            reveal_strlit("KeyU");
            assert("KeyB"@[3] != "KeyU"@[3]);
            reveal_strlit("KeyI");
            assert("KeyB"@[3] != "KeyI"@[3]);
            reveal_strlit("KeyO");
            assert("KeyB"@[3] != "KeyO"@[3]);
            reveal_strlit("KeyP");
            assert("KeyB"@[3] != "KeyP"@[3]);
            reveal_strlit("KeyA");
            assert("KeyB"@[3] != "KeyA"@[3]);
            reveal_strlit("KeyS");
            assert("KeyB"@[3] != "KeyS"@[3]);
            reveal_strlit("KeyD");
            assert("KeyB"@[3] != "KeyD"@[3]);
            reveal_strlit("KeyF");
            assert("KeyB"@[3] != "KeyF"@[3]);
            reveal_strlit("KeyG");
            assert("KeyB"@[3] != "KeyG"@[3]);
            reveal_strlit("KeyH");
            assert("KeyB"@[3] != "KeyH"@[3]);
            reveal_strlit("KeyJ");
            assert("KeyB"@[3] != "KeyJ"@[3]);
            reveal_strlit("KeyK");
            assert("KeyB"@[3] != "KeyK"@[3]);
            reveal_strlit("KeyL");
            assert("KeyB"@[3] != "KeyL"@[3]);
            reveal_strlit("KeyZ");
            assert("KeyB"@[3] != "KeyZ"@[3]);
            reveal_strlit("KeyX");
            assert("KeyB"@[3] != "KeyX"@[3]);
            reveal_strlit("KeyC");
            assert("KeyB"@[3] != "KeyC"@[3]);
            reveal_strlit("KeyV");
            assert("KeyB"@[3] != "KeyV"@[3]);
        }
    }
    if c == 49 {
        assert(named_key_code("KeyN"@) == Some(49u16) && !has_prefix("KeyN"@, "evdev:"@)) by {
            reveal_strlit("KeyN");
            reveal_strlit("KeyQ");
            assert("KeyN"@[3] != "KeyQ"@[3]);
            reveal_strlit("KeyW");
            assert("KeyN"@[3] != "KeyW"@[3]);
            reveal_strlit("KeyE");
            assert("KeyN"@[3] != "KeyE"@[3]);
            reveal_strlit("KeyR");
            assert("KeyN"@[3] != "KeyR"@[3]);
            reveal_strlit("KeyT");
            assert("KeyN"@[3] != "KeyT"@[3]);
            reveal_strlit("KeyY");
            assert("KeyN"@[3] != "KeyY"@[3]);
            reveal_strlit("KeyU");
            assert("KeyN"@[3] != "KeyU"@[3]);
            reveal_strlit("KeyI");
            assert("KeyN"@[3] != "KeyI"@[3]);
            reveal_strlit("KeyO");
            assert("KeyN"@[3] != "KeyO"@[3]);
            reveal_strlit("KeyP");
            assert("KeyN"@[3] != "KeyP"@[3]);
            reveal_strlit("KeyA");
            assert("KeyN"@[3] != "KeyA"@[3]);
            reveal_strlit("KeyS");
            assert("KeyN"@[3] != "KeyS"@[3]);
            reveal_strlit("KeyD");
            assert("KeyN"@[3] != "KeyD"@[3]);
            reveal_strlit("KeyF");
            assert("KeyN"@[3] != "KeyF"@[3]);
            reveal_strlit("KeyG");
            assert("KeyN"@[3] != "KeyG"@[3]);
            reveal_strlit("KeyH");
            assert("KeyN"@[3] != "KeyH"@[3]);
            reveal_strlit("KeyJ");
            assert("KeyN"@[3] != "KeyJ"@[3]);
            reveal_strlit("KeyK");
            assert("KeyN"@[3] != "KeyK"@[3]);
            reveal_strlit("KeyL");
            assert("KeyN"@[3] != "KeyL"@[3]);
            reveal_strlit("KeyZ");
            assert("KeyN"@[3] != "KeyZ"@[3]);
            reveal_strlit("KeyX");
            assert("KeyN"@[3] != "KeyX"@[3]);
            reveal_strlit("KeyC");
            assert("KeyN"@[3] != "KeyC"@[3]);
            reveal_strlit("KeyV");
            assert("KeyN"@[3] != "KeyV"@[3]);
            reveal_strlit("KeyB");
            assert("KeyN"@[3] != "KeyB"@[3]);
        }
    }
    if c == 50 {
        assert(named_key_code("KeyM"@) == Some(50u16) && !has_prefix("KeyM"@, "evdev:"@)) by {
            reveal_strlit("KeyM");
            reveal_strlit("KeyQ");
            assert("KeyM"@[3] != "KeyQ"@[3]);
            reveal_strlit("KeyW");
            assert("KeyM"@[3] != "KeyW"@[3]);
            reveal_strlit("KeyE");
            assert("KeyM"@[3] != "KeyE"@[3]);
            reveal_strlit("KeyR");
            assert("KeyM"@[3] != "KeyR"@[3]);
            reveal_strlit("KeyT");
            assert("KeyM"@[3] != "KeyT"@[3]);
            reveal_strlit("KeyY");
            assert("KeyM"@[3] != "KeyY"@[3]);
            reveal_strlit("KeyU");
            assert("KeyM"@[3] != "KeyU"@[3]);
            reveal_strlit("KeyI");
            assert("KeyM"@[3] != "KeyI"@[3]);
            reveal_strlit("KeyO");
            assert("KeyM"@[3] != "KeyO"@[3]);
            reveal_strlit("KeyP");
            assert("KeyM"@[3] != "KeyP"@[3]);
            reveal_strlit("KeyA");
            assert("KeyM"@[3] != "KeyA"@[3]);
            reveal_strlit("KeyS");
            assert("KeyM"@[3] != "KeyS"@[3]);
            reveal_strlit("KeyD");
            assert("KeyM"@[3] != "KeyD"@[3]);
            reveal_strlit("KeyF");
            assert("KeyM"@[3] != "KeyF"@[3]);
            reveal_strlit("KeyG");
            assert("KeyM"@[3] != "KeyG"@[3]);
            reveal_strlit("KeyH");
            assert("KeyM"@[3] != "KeyH"@[3]);
            reveal_strlit("KeyJ");
            assert("KeyM"@[3] != "KeyJ"@[3]);
            reveal_strlit("KeyK");
            assert("KeyM"@[3] != "KeyK"@[3]);
            reveal_strlit("KeyL");
            assert("KeyM"@[3] != "KeyL"@[3]);
            reveal_strlit("KeyZ");
            assert("KeyM"@[3] != "KeyZ"@[3]);
            reveal_strlit("KeyX");
            assert("KeyM"@[3] != "KeyX"@[3]);
            reveal_strlit("KeyC");
            assert("KeyM"@[3] != "KeyC"@[3]);
            reveal_strlit("KeyV");
            assert("KeyM"@[3] != "KeyV"@[3]);
            reveal_strlit("KeyB");
            assert("KeyM"@[3] != "KeyB"@[3]);
            reveal_strlit("KeyN");
            assert("KeyM"@[3] != "KeyN"@[3]);
        }
    }
    if c == 51 {
        assert(named_key_code("Comma"@) == Some(51u16) && !has_prefix("Comma"@, "evdev:"@)) by {
            reveal_strlit("Comma");
            reveal_strlit("Minus");
            assert("Comma"@[0] != "Minus"@[0]);
            reveal_strlit("Equal");
            assert("Comma"@[0] != "Equal"@[0]);
            reveal_strlit("Enter");
            assert("Comma"@[0] != "Enter"@[0]);
            reveal_strlit("Quote");
            assert("Comma"@[0] != "Quote"@[0]);
        }
    }
    if c == 52 {
        assert(named_key_code("Period"@) == Some(52u16) && !has_prefix("Period"@, "evdev:"@)) by {
            reveal_strlit("Period");
            reveal_strlit("Escape");
            assert("Period"@[0] != "Escape"@[0]);
            reveal_strlit("Digit1");
            assert("Period"@[0] != "Digit1"@[0]);
            reveal_strlit("Digit2");
            assert("Period"@[0] != "Digit2"@[0]);
            reveal_strlit("Digit3");
            assert("Period"@[0] != "Digit3"@[0]);
            reveal_strlit("Digit4");
            assert("Period"@[0] != "Digit4"@[0]);
            reveal_strlit("Digit5");
            assert("Period"@[0] != "Digit5"@[0]);
            reveal_strlit("Digit6");
            assert("Period"@[0] != "Digit6"@[0]);
            reveal_strlit("Digit7");
            assert("Period"@[0] != "Digit7"@[0]);
            reveal_strlit("Digit8");
            assert("Period"@[0] != "Digit8"@[0]);
            reveal_strlit("Digit9");
            assert("Period"@[0] != "Digit9"@[0]);
            reveal_strlit("Digit0");
            assert("Period"@[0] != "Digit0"@[0]);
            assert("Period"@.take(6)[0] != "evdev:"@[0]);
        }
    }
    if c == 53 {
        assert(named_key_code("Slash"@) == Some(53u16) && !has_prefix("Slash"@, "evdev:"@)) by {
            reveal_strlit("Slash");
            reveal_strlit("Minus");
            assert("Slash"@[0] != "Minus"@[0]);
            reveal_strlit("Equal");
            assert("Slash"@[0] != "Equal"@[0]);
            reveal_strlit("Enter");
            assert("Slash"@[0] != "Enter"@[0]);
            reveal_strlit("Quote");
            assert("Slash"@[0] != "Quote"@[0]);
            reveal_strlit("Comma");
            assert("Slash"@[0] != "Comma"@[0]);
        }
    }
    if c == 54 {
        assert(named_key_code("ShiftRight"@) == Some(54u16) && !has_prefix("ShiftRight"@, "evdev:"@)) by {
            reveal_strlit("ShiftRight");
            assert("ShiftRight"@.take(6)[0] != "evdev:"@[0]);
        }
    }
    if c == 55 {
        assert(named_key_code("NumpadMultiply"@) == Some(55u16) && !has_prefix("NumpadMultiply"@, "evdev:"@)) by {
            reveal_strlit("NumpadMultiply");
            assert("NumpadMultiply"@.take(6)[0] != "evdev:"@[0]);
        }
    }
    if c == 56 {
        assert(named_key_code("AltLeft"@) == Some(56u16) && !has_prefix("AltLeft"@, "evdev:"@)) by {
            reveal_strlit("AltLeft");
            assert("AltLeft"@.take(6)[0] != "evdev:"@[0]);
        }
    }
    if c == 57 {
        assert(named_key_code("Space"@) == Some(57u16) && !has_prefix("Space"@, "evdev:"@)) by {
            reveal_strlit("Space");
            reveal_strlit("Minus");
            assert("Space"@[0] != "Minus"@[0]);
            reveal_strlit("Equal");
            assert("Space"@[0] != "Equal"@[0]);
            reveal_strlit("Enter");
            assert("Space"@[0] != "Enter"@[0]);
            reveal_strlit("Quote");
            assert("Space"@[0] != "Quote"@[0]);
            reveal_strlit("Comma");
            assert("Space"@[0] != "Comma"@[0]);
            reveal_strlit("Slash");
            assert("Space"@[1] != "Slash"@[1]);
        }
    }
    if c == 58 {
        assert(named_key_code("CapsLock"@) == Some(58u16) && !has_prefix("CapsLock"@, "evdev:"@)) by {
            reveal_strlit("CapsLock");
            assert("CapsLock"@.take(6)[0] != "evdev:"@[0]);
        }
    }
    if c == 59 {
        assert(named_key_code("F1"@) == Some(59u16) && !has_prefix("F1"@, "evdev:"@)) by {
            reveal_strlit("F1");
        }
    }
    if c == 60 {
        assert(named_key_code("F2"@) == Some(60u16) && !has_prefix("F2"@, "evdev:"@)) by {
            reveal_strlit("F2");
            reveal_strlit("F1");
            assert("F2"@[1] != "F1"@[1]);
        }
    }
    if c == 61 {
        assert(named_key_code("F3"@) == Some(61u16) && !has_prefix("F3"@, "evdev:"@)) by {
            reveal_strlit("F3");
            reveal_strlit("F1");
            assert("F3"@[1] != "F1"@[1]);
            reveal_strlit("F2");
            assert("F3"@[1] != "F2"@[1]);
        }
    }
    if c == 62 {
        assert(named_key_code("F4"@) == Some(62u16) && !has_prefix("F4"@, "evdev:"@)) by {
            reveal_strlit("F4");
            reveal_strlit("F1");
            assert("F4"@[1] != "F1"@[1]);
            reveal_strlit("F2");
            assert("F4"@[1] != "F2"@[1]);
            reveal_strlit("F3");
            assert("F4"@[1] != "F3"@[1]);
        }
    }
    if c == 63 {
        assert(named_key_code("F5"@) == Some(63u16) && !has_prefix("F5"@, "evdev:"@)) by {
            reveal_strlit("F5");
            reveal_strlit("F1");
            assert("F5"@[1] != "F1"@[1]);
            reveal_strlit("F2");
            assert("F5"@[1] != "F2"@[1]);
            reveal_strlit("F3");
            assert("F5"@[1] != "F3"@[1]);
            reveal_strlit("F4");
            assert("F5"@[1] != "F4"@[1]);
        }
    }
    if c == 64 {
        assert(named_key_code("F6"@) == Some(64u16) && !has_prefix("F6"@, "evdev:"@)) by {
            reveal_strlit("F6");
            reveal_strlit("F1");
            assert("F6"@[1] != "F1"@[1]);
            reveal_strlit("F2");
            assert("F6"@[1] != "F2"@[1]);
            reveal_strlit("F3");
            assert("F6"@[1] != "F3"@[1]);
            reveal_strlit("F4");
            assert("F6"@[1] != "F4"@[1]);
            reveal_strlit("F5");
            assert("F6"@[1] != "F5"@[1]);
        }
    }
    if c == 65 {
        assert(named_key_code("F7"@) == Some(65u16) && !has_prefix("F7"@, "evdev:"@)) by {
            reveal_strlit("F7");
            reveal_strlit("F1");
            assert("F7"@[1] != "F1"@[1]);
            reveal_strlit("F2");
            assert("F7"@[1] != "F2"@[1]);
            reveal_strlit("F3");
            assert("F7"@[1] != "F3"@[1]);
            reveal_strlit("F4");
            assert("F7"@[1] != "F4"@[1]);
            reveal_strlit("F5");
            assert("F7"@[1] != "F5"@[1]);
            reveal_strlit("F6");
            assert("F7"@[1] != "F6"@[1]);
        }
    }
    if c == 66 {
        assert(named_key_code("F8"@) == Some(66u16) && !has_prefix("F8"@, "evdev:"@)) by {
            reveal_strlit("F8");
            reveal_strlit("F1");
            assert("F8"@[1] != "F1"@[1]);
            reveal_strlit("F2");
            assert("F8"@[1] != "F2"@[1]);
            reveal_strlit("F3");
            assert("F8"@[1] != "F3"@[1]);
            reveal_strlit("F4");
            assert("F8"@[1] != "F4"@[1]);
            reveal_strlit("F5");
            assert("F8"@[1] != "F5"@[1]);
            reveal_strlit("F6");
            assert("F8"@[1] != "F6"@[1]);
            reveal_strlit("F7");
            assert("F8"@[1] != "F7"@[1]);
        }
    }
    if c == 67 {
        assert(named_key_code("F9"@) == Some(67u16) && !has_prefix("F9"@, "evdev:"@)) by {
            reveal_strlit("F9");
            reveal_strlit("F1");
            assert("F9"@[1] != "F1"@[1]);
            reveal_strlit("F2");
            assert("F9"@[1] != "F2"@[1]);
            reveal_strlit("F3");
            assert("F9"@[1] != "F3"@[1]);
            reveal_strlit("F4");
            assert("F9"@[1] != "F4"@[1]);
            reveal_strlit("F5");
            assert("F9"@[1] != "F5"@[1]);
            reveal_strlit("F6");
            assert("F9"@[1] != "F6"@[1]);
            reveal_strlit("F7");
            assert("F9"@[1] != "F7"@[1]);
            reveal_strlit("F8");
            assert("F9"@[1] != "F8"@[1]);
        }
    }
    if c == 68 {
        assert(named_key_code("F10"@) == Some(68u16) && !has_prefix("F10"@, "evdev:"@)) by {
            reveal_strlit("F10");
            reveal_strlit("Tab");
            assert("F10"@[0] != "Tab"@[0]);
        }
    }
    if c == 69 {
        assert(named_key_code("NumLock"@) == Some(69u16) && !has_prefix("NumLock"@, "evdev:"@)) by {
            reveal_strlit("NumLock");
            reveal_strlit("AltLeft");
            assert("NumLock"@[0] != "AltLeft"@[0]);
            assert("NumLock"@.take(6)[0] != "evdev:"@[0]);
        }
    }
    if c == 70 {
        assert(named_key_code("ScrollLock"@) == Some(70u16) && !has_prefix("ScrollLock"@, "evdev:"@)) by {
            reveal_strlit("ScrollLock");
            reveal_strlit("ShiftRight");
            assert("ScrollLock"@[1] != "ShiftRight"@[1]);
            assert("ScrollLock"@.take(6)[0] != "evdev:"@[0]);
        }
    }
    if c == 71 {
        assert(named_key_code("Numpad7"@) == Some(71u16) && !has_prefix("Numpad7"@, "evdev:"@)) by {
            reveal_strlit("Numpad7");
            reveal_strlit("AltLeft");
            assert("Numpad7"@[0] != "AltLeft"@[0]);
            reveal_strlit("NumLock");
            assert("Numpad7"@[3] != "NumLock"@[3]);
            assert("Numpad7"@.take(6)[0] != "evdev:"@[0]);
        }
    }
    if c == 72 {
        assert(named_key_code("Numpad8"@) == Some(72u16) && !has_prefix("Numpad8"@, "evdev:"@)) by {
            reveal_strlit("Numpad8");
            reveal_strlit("AltLeft");
            assert("Numpad8"@[0] != "AltLeft"@[0]);
            reveal_strlit("NumLock");
            assert("Numpad8"@[3] != "NumLock"@[3]);
            reveal_strlit("Numpad7");
            assert("Numpad8"@[6] != "Numpad7"@[6]);
            assert("Numpad8"@.take(6)[0] != "evdev:"@[0]);
        }
    }
    if c == 73 {
        assert(named_key_code("Numpad9"@) == Some(73u16) && !has_prefix("Numpad9"@, "evdev:"@)) by {
            reveal_strlit("Numpad9");
            reveal_strlit("AltLeft");
            assert("Numpad9"@[0] != "AltLeft"@[0]);
            reveal_strlit("NumLock");
            assert("Numpad9"@[3] != "NumLock"@[3]);
            reveal_strlit("Numpad7");
            assert("Numpad9"@[6] != "Numpad7"@[6]);
            reveal_strlit("Numpad8");
            assert("Numpad9"@[6] != "Numpad8"@[6]);
            assert("Numpad9"@.take(6)[0] != "evdev:"@[0]);
        }
    }
    if c == 74 {
        assert(named_key_code("NumpadSubtract"@) == Some(74u16) && !has_prefix("NumpadSubtract"@, "evdev:"@)) by {
            reveal_strlit("NumpadSubtract");
            reveal_strlit("NumpadMultiply");
            assert("NumpadSubtract"@[6] != "NumpadMultiply"@[6]);
            assert("NumpadSubtract"@.take(6)[0] != "evdev:"@[0]);
        }
    }
    if c == 75 {
        assert(named_key_code("Numpad4"@) == Some(75u16) && !has_prefix("Numpad4"@, "evdev:"@)) by {
            reveal_strlit("Numpad4");
            reveal_strlit("AltLeft");
            assert("Numpad4"@[0] != "AltLeft"@[0]);
            reveal_strlit("NumLock");
            assert("Numpad4"@[3] != "NumLock"@[3]);
            reveal_strlit("Numpad7");
            assert("Numpad4"@[6] != "Numpad7"@[6]);
            reveal_strlit("Numpad8");
            assert("Numpad4"@[6] != "Numpad8"@[6]);
            reveal_strlit("Numpad9");
            assert("Numpad4"@[6] != "Numpad9"@[6]);
            assert("Numpad4"@.take(6)[0] != "evdev:"@[0]);
        }
    }
    if c == 76 {
        assert(named_key_code("Numpad5"@) == Some(76u16) && !has_prefix("Numpad5"@, "evdev:"@)) by {
            reveal_strlit("Numpad5");
            reveal_strlit("AltLeft");
            assert("Numpad5"@[0] != "AltLeft"@[0]);
            reveal_strlit("NumLock");
            assert("Numpad5"@[3] != "NumLock"@[3]);
            reveal_strlit("Numpad7");
            assert("Numpad5"@[6] != "Numpad7"@[6]);
            reveal_strlit("Numpad8");
            assert("Numpad5"@[6] != "Numpad8"@[6]);
            reveal_strlit("Numpad9");
            assert("Numpad5"@[6] != "Numpad9"@[6]);
            reveal_strlit("Numpad4");
            assert("Numpad5"@[6] != "Numpad4"@[6]);
            assert("Numpad5"@.take(6)[0] != "evdev:"@[0]);
        }
    }
    if c == 77 {
        assert(named_key_code("Numpad6"@) == Some(77u16) && !has_prefix("Numpad6"@, "evdev:"@)) by {
            reveal_strlit("Numpad6");
            reveal_strlit("AltLeft");
            assert("Numpad6"@[0] != "AltLeft"@[0]);
            reveal_strlit("NumLock");
            assert("Numpad6"@[3] != "NumLock"@[3]);
            reveal_strlit("Numpad7");
            assert("Numpad6"@[6] != "Numpad7"@[6]);
            reveal_strlit("Numpad8");
            assert("Numpad6"@[6] != "Numpad8"@[6]);
            reveal_strlit("Numpad9");
            assert("Numpad6"@[6] != "Numpad9"@[6]);
            reveal_strlit("Numpad4");
            assert("Numpad6"@[6] != "Numpad4"@[6]);
            reveal_strlit("Numpad5");
            assert("Numpad6"@[6] != "Numpad5"@[6]);
            assert("Numpad6"@.take(6)[0] != "evdev:"@[0]);
        }
    }
    if c == 78 {
        assert(named_key_code("NumpadAdd"@) == Some(78u16) && !has_prefix("NumpadAdd"@, "evdev:"@)) by {
            reveal_strlit("NumpadAdd");
            reveal_strlit("Backspace");
            assert("NumpadAdd"@[0] != "Backspace"@[0]);
            reveal_strlit("Semicolon");
            assert("NumpadAdd"@[0] != "Semicolon"@[0]);
            reveal_strlit("Backquote");
            assert("NumpadAdd"@[0] != "Backquote"@[0]);
            reveal_strlit("ShiftLeft");
            assert("NumpadAdd"@[0] != "ShiftLeft"@[0]);
            reveal_strlit("Backslash");
            assert("NumpadAdd"@[0] != "Backslash"@[0]);
            assert("NumpadAdd"@.take(6)[0] != "evdev:"@[0]);
        }
    }
    if c == 79 {
        assert(named_key_code("Numpad1"@) == Some(79u16) && !has_prefix("Numpad1"@, "evdev:"@)) by {
            reveal_strlit("Numpad1");
            reveal_strlit("AltLeft");
            assert("Numpad1"@[0] != "AltLeft"@[0]);
            reveal_strlit("NumLock");
            assert("Numpad1"@[3] != "NumLock"@[3]);
            reveal_strlit("Numpad7");
            assert("Numpad1"@[6] != "Numpad7"@[6]);
            reveal_strlit("Numpad8");
            assert("Numpad1"@[6] != "Numpad8"@[6]);
            reveal_strlit("Numpad9");
            assert("Numpad1"@[6] != "Numpad9"@[6]);
            reveal_strlit("Numpad4");
            assert("Numpad1"@[6] != "Numpad4"@[6]);
            reveal_strlit("Numpad5");
            assert("Numpad1"@[6] != "Numpad5"@[6]);
            reveal_strlit("Numpad6");
            assert("Numpad1"@[6] != "Numpad6"@[6]);
            assert("Numpad1"@.take(6)[0] != "evdev:"@[0]);
        }
    }
    if c == 80 {
        assert(named_key_code("Numpad2"@) == Some(80u16) && !has_prefix("Numpad2"@, "evdev:"@)) by {
            reveal_strlit("Numpad2");
            reveal_strlit("AltLeft");
            assert("Numpad2"@[0] != "AltLeft"@[0]);
            reveal_strlit("NumLock");
            assert("Numpad2"@[3] != "NumLock"@[3]);
            reveal_strlit("Numpad7");
            assert("Numpad2"@[6] != "Numpad7"@[6]);
            reveal_strlit("Numpad8");
            assert("Numpad2"@[6] != "Numpad8"@[6]);
            reveal_strlit("Numpad9");
            assert("Numpad2"@[6] != "Numpad9"@[6]);
            reveal_strlit("Numpad4");
            assert("Numpad2"@[6] != "Numpad4"@[6]);
            reveal_strlit("Numpad5");
            assert("Numpad2"@[6] != "Numpad5"@[6]);
            reveal_strlit("Numpad6");
            assert("Numpad2"@[6] != "Numpad6"@[6]);
            reveal_strlit("Numpad1");
            assert("Numpad2"@[6] != "Numpad1"@[6]);
            assert("Numpad2"@.take(6)[0] != "evdev:"@[0]);
        }
    }
    if c == 81 {
        assert(named_key_code("Numpad3"@) == Some(81u16) && !has_prefix("Numpad3"@, "evdev:"@)) by {
            reveal_strlit("Numpad3");
            reveal_strlit("AltLeft");
            assert("Numpad3"@[0] != "AltLeft"@[0]);
            reveal_strlit("NumLock");
            assert("Numpad3"@[3] != "NumLock"@[3]);
            reveal_strlit("Numpad7");
            assert("Numpad3"@[6] != "Numpad7"@[6]);
            reveal_strlit("Numpad8");
            assert("Numpad3"@[6] != "Numpad8"@[6]);
            reveal_strlit("Numpad9");
            assert("Numpad3"@[6] != "Numpad9"@[6]);
            reveal_strlit("Numpad4");
            assert("Numpad3"@[6] != "Numpad4"@[6]);
            reveal_strlit("Numpad5");
            assert("Numpad3"@[6] != "Numpad5"@[6]);
            reveal_strlit("Numpad6");
            assert("Numpad3"@[6] != "Numpad6"@[6]);
            reveal_strlit("Numpad1");
            assert("Numpad3"@[6] != "Numpad1"@[6]);
            reveal_strlit("Numpad2");
            assert("Numpad3"@[6] != "Numpad2"@[6]);
            assert("Numpad3"@.take(6)[0] != "evdev:"@[0]);
        }
    }
    if c == 82 {
        assert(named_key_code("Numpad0"@) == Some(82u16) && !has_prefix("Numpad0"@, "evdev:"@)) by {
            reveal_strlit("Numpad0");
            reveal_strlit("AltLeft");
            assert("Numpad0"@[0] != "AltLeft"@[0]);
            reveal_strlit("NumLock");
            assert("Numpad0"@[3] != "NumLock"@[3]);
            reveal_strlit("Numpad7");
            assert("Numpad0"@[6] != "Numpad7"@[6]);
            reveal_strlit("Numpad8");
            assert("Numpad0"@[6] != "Numpad8"@[6]);
            reveal_strlit("Numpad9");
            assert("Numpad0"@[6] != "Numpad9"@[6]);
            reveal_strlit("Numpad4");
            assert("Numpad0"@[6] != "Numpad4"@[6]);
            reveal_strlit("Numpad5");
            assert("Numpad0"@[6] != "Numpad5"@[6]);
            reveal_strlit("Numpad6");
            assert("Numpad0"@[6] != "Numpad6"@[6]);
            reveal_strlit("Numpad1");
            assert("Numpad0"@[6] != "Numpad1"@[6]);
            reveal_strlit("Numpad2");
            assert("Numpad0"@[6] != "Numpad2"@[6]);
            reveal_strlit("Numpad3");
            assert("Numpad0"@[6] != "Numpad3"@[6]);
            assert("Numpad0"@.take(6)[0] != "evdev:"@[0]);
        }
    }
    if c == 83 {
        assert(named_key_code("NumpadDecimal"@) == Some(83u16) && !has_prefix("NumpadDecimal"@, "evdev:"@)) by {
            reveal_strlit("NumpadDecimal");
            assert("NumpadDecimal"@.take(6)[0] != "evdev:"@[0]);
        }
    }
    if c == 86 {
        assert(named_key_code("IntlBackslash"@) == Some(86u16) && !has_prefix("IntlBackslash"@, "evdev:"@)) by {
            reveal_strlit("IntlBackslash");
            reveal_strlit("NumpadDecimal");
            assert("IntlBackslash"@[0] != "NumpadDecimal"@[0]);
            assert("IntlBackslash"@.take(6)[0] != "evdev:"@[0]);
        }
    }
    if c == 87 {
        assert(named_key_code("F11"@) == Some(87u16) && !has_prefix("F11"@, "evdev:"@)) by {
            reveal_strlit("F11");
            reveal_strlit("Tab");
            assert("F11"@[0] != "Tab"@[0]);
            reveal_strlit("F10");
            assert("F11"@[2] != "F10"@[2]);
        }
    }
    if c == 88 {
        assert(named_key_code("F12"@) == Some(88u16) && !has_prefix("F12"@, "evdev:"@)) by {
            reveal_strlit("F12");
            reveal_strlit("Tab");
            assert("F12"@[0] != "Tab"@[0]);
            reveal_strlit("F10");
            assert("F12"@[2] != "F10"@[2]);
            reveal_strlit("F11");
            assert("F12"@[2] != "F11"@[2]);
        }
    }
    if c == 89 {
        assert(named_key_code("IntlRo"@) == Some(89u16) && !has_prefix("IntlRo"@, "evdev:"@)) by {
            reveal_strlit("IntlRo");
            reveal_strlit("Escape");
            assert("IntlRo"@[0] != "Escape"@[0]);
            reveal_strlit("Digit1");
            assert("IntlRo"@[0] != "Digit1"@[0]);
            reveal_strlit("Digit2");
            assert("IntlRo"@[0] != "Digit2"@[0]);
            reveal_strlit("Digit3");
            assert("IntlRo"@[0] != "Digit3"@[0]);
            reveal_strlit("Digit4");
            assert("IntlRo"@[0] != "Digit4"@[0]);
            reveal_strlit("Digit5");
            assert("IntlRo"@[0] != "Digit5"@[0]);
            reveal_strlit("Digit6");
            assert("IntlRo"@[0] != "Digit6"@[0]);
            reveal_strlit("Digit7");
            assert("IntlRo"@[0] != "Digit7"@[0]);
            reveal_strlit("Digit8");
            assert("IntlRo"@[0] != "Digit8"@[0]);
            reveal_strlit("Digit9");
            assert("IntlRo"@[0] != "Digit9"@[0]);
            reveal_strlit("Digit0");
            assert("IntlRo"@[0] != "Digit0"@[0]);
            reveal_strlit("Period");
            assert("IntlRo"@[0] != "Period"@[0]);
            assert("IntlRo"@.take(6)[0] != "evdev:"@[0]);
        }
    }
    if c == 92 {
        assert(named_key_code("Convert"@) == Some(92u16) && !has_prefix("Convert"@, "evdev:"@)) by {
            reveal_strlit("Convert");
            reveal_strlit("AltLeft");
            assert("Convert"@[0] != "AltLeft"@[0]);
            reveal_strlit("NumLock");
            assert("Convert"@[0] != "NumLock"@[0]);
            reveal_strlit("Numpad7");
            assert("Convert"@[0] != "Numpad7"@[0]);
            reveal_strlit("Numpad8");
            assert("Convert"@[0] != "Numpad8"@[0]);
            reveal_strlit("Numpad9");
            assert("Convert"@[0] != "Numpad9"@[0]);
            reveal_strlit("Numpad4");
            assert("Convert"@[0] != "Numpad4"@[0]);
            reveal_strlit("Numpad5");
            assert("Convert"@[0] != "Numpad5"@[0]);
            reveal_strlit("Numpad6");
            assert("Convert"@[0] != "Numpad6"@[0]);
            reveal_strlit("Numpad1");
            assert("Convert"@[0] != "Numpad1"@[0]);
            reveal_strlit("Numpad2");
            assert("Convert"@[0] != "Numpad2"@[0]);
            reveal_strlit("Numpad3");
            assert("Convert"@[0] != "Numpad3"@[0]);
            reveal_strlit("Numpad0");
            assert("Convert"@[0] != "Numpad0"@[0]);
            assert("Convert"@.take(6)[0] != "evdev:"@[0]);
        }
    }
    if c == 93 {
        assert(named_key_code("KanaMode"@) == Some(93u16) && !has_prefix("KanaMode"@, "evdev:"@)) by {
            reveal_strlit("KanaMode");
            reveal_strlit("CapsLock");
            assert("KanaMode"@[0] != "CapsLock"@[0]);
            assert("KanaMode"@.take(6)[0] != "evdev:"@[0]);
        }
    }
    if c == 94 {
        assert(named_key_code("NonConvert"@) == Some(94u16) && !has_prefix("NonConvert"@, "evdev:"@)) by {
            reveal_strlit("NonConvert");
            reveal_strlit("ShiftRight");
            assert("NonConvert"@[0] != "ShiftRight"@[0]);
            reveal_strlit("ScrollLock");
            assert("NonConvert"@[0] != "ScrollLock"@[0]);
            assert("NonConvert"@.take(6)[0] != "evdev:"@[0]);
        }
    }
    if c == 96 {
        assert(named_key_code("NumpadEnter"@) == Some(96u16) && !has_prefix("NumpadEnter"@, "evdev:"@)) by {
            reveal_strlit("NumpadEnter");
            reveal_strlit("BracketLeft");
            assert("NumpadEnter"@[0] != "BracketLeft"@[0]);
            reveal_strlit("ControlLeft");
            assert("NumpadEnter"@[0] != "ControlLeft"@[0]);
            assert("NumpadEnter"@.take(6)[0] != "evdev:"@[0]);
        }
    }
    if c == 97 {
        assert(named_key_code("ControlRight"@) == Some(97u16) && !has_prefix("ControlRight"@, "evdev:"@)) by {
            reveal_strlit("ControlRight");
            reveal_strlit("BracketRight");
            assert("ControlRight"@[0] != "BracketRight"@[0]);
            assert("ControlRight"@.take(6)[0] != "evdev:"@[0]);
        }
    }
    if c == 98 {
        assert(named_key_code("NumpadDivide"@) == Some(98u16) && !has_prefix("NumpadDivide"@, "evdev:"@)) by {
            reveal_strlit("NumpadDivide");
            reveal_strlit("BracketRight");
            assert("NumpadDivide"@[0] != "BracketRight"@[0]);
            reveal_strlit("ControlRight");
            assert("NumpadDivide"@[0] != "ControlRight"@[0]);
            assert("NumpadDivide"@.take(6)[0] != "evdev:"@[0]);
        }
    }
    if c == 99 {
        assert(named_key_code("PrintScreen"@) == Some(99u16) && !has_prefix("PrintScreen"@, "evdev:"@)) by {
            reveal_strlit("PrintScreen");
            reveal_strlit("BracketLeft");
            assert("PrintScreen"@[0] != "BracketLeft"@[0]);
            reveal_strlit("ControlLeft");
            assert("PrintScreen"@[0] != "ControlLeft"@[0]);
            reveal_strlit("NumpadEnter");
            assert("PrintScreen"@[0] != "NumpadEnter"@[0]);
            assert("PrintScreen"@.take(6)[0] != "evdev:"@[0]);
        }
    }
    if c == 100 {
        assert(named_key_code("AltRight"@) == Some(100u16) && !has_prefix("AltRight"@, "evdev:"@)) by {
            reveal_strlit("AltRight");
            reveal_strlit("CapsLock");
            assert("AltRight"@[0] != "CapsLock"@[0]);
            reveal_strlit("KanaMode");
            assert("AltRight"@[0] != "KanaMode"@[0]);
            assert("AltRight"@.take(6)[0] != "evdev:"@[0]);
        }
    }
    if c == 102 {
        assert(named_key_code("Home"@) == Some(102u16) && !has_prefix("Home"@, "evdev:"@)) by {
            reveal_strlit("Home");
            reveal_strlit("KeyQ");
            assert("Home"@[0] != "KeyQ"@[0]);
            reveal_strlit("KeyW");
            assert("Home"@[0] != "KeyW"@[0]);
            reveal_strlit("KeyE");
            assert("Home"@[0] != "KeyE"@[0]);
            reveal_strlit("KeyR");
            assert("Home"@[0] != "KeyR"@[0]);
            reveal_strlit("KeyT");
            assert("Home"@[0] != "KeyT"@[0]);
            reveal_strlit("KeyY");
            assert("Home"@[0] != "KeyY"@[0]);
            reveal_strlit("KeyU");
            assert("Home"@[0] != "KeyU"@[0]);
            reveal_strlit("KeyI");
            assert("Home"@[0] != "KeyI"@[0]);
            reveal_strlit("KeyO");
            assert("Home"@[0] != "KeyO"@[0]);
            reveal_strlit("KeyP");
            assert("Home"@[0] != "KeyP"@[0]);
            reveal_strlit("KeyA");
            assert("Home"@[0] != "KeyA"@[0]);
            reveal_strlit("KeyS");
            assert("Home"@[0] != "KeyS"@[0]);
            reveal_strlit("KeyD");
            assert("Home"@[0] != "KeyD"@[0]);
            reveal_strlit("KeyF");
            assert("Home"@[0] != "KeyF"@[0]);
            reveal_strlit("KeyG");
            assert("Home"@[0] != "KeyG"@[0]);
            reveal_strlit("KeyH");
            assert("Home"@[0] != "KeyH"@[0]);
            reveal_strlit("KeyJ");
            assert("Home"@[0] != "KeyJ"@[0]);
            reveal_strlit("KeyK");
            assert("Home"@[0] != "KeyK"@[0]);
            reveal_strlit("KeyL");
            assert("Home"@[0] != "KeyL"@[0]);
            reveal_strlit("KeyZ");
            assert("Home"@[0] != "KeyZ"@[0]);
            reveal_strlit("KeyX");
            assert("Home"@[0] != "KeyX"@[0]);
            reveal_strlit("KeyC");
            assert("Home"@[0] != "KeyC"@[0]);
            reveal_strlit("KeyV");
            assert("Home"@[0] != "KeyV"@[0]);
            reveal_strlit("KeyB");
            assert("Home"@[0] != "KeyB"@[0]);
            reveal_strlit("KeyN");
            assert("Home"@[0] != "KeyN"@[0]);
            reveal_strlit("KeyM");
            assert("Home"@[0] != "KeyM"@[0]);
        }
    }
    if c == 103 {
        assert(named_key_code("ArrowUp"@) == Some(103u16) && !has_prefix("ArrowUp"@, "evdev:"@)) by {
            reveal_strlit("ArrowUp");
            reveal_strlit("AltLeft");
            assert("ArrowUp"@[1] != "AltLeft"@[1]);
            reveal_strlit("NumLock");
            assert("ArrowUp"@[0] != "NumLock"@[0]);
            reveal_strlit("Numpad7");
            assert("ArrowUp"@[0] != "Numpad7"@[0]);
            reveal_strlit("Numpad8");
            assert("ArrowUp"@[0] != "Numpad8"@[0]);
            reveal_strlit("Numpad9");
            assert("ArrowUp"@[0] != "Numpad9"@[0]);
            reveal_strlit("Numpad4");
            assert("ArrowUp"@[0] != "Numpad4"@[0]);
            reveal_strlit("Numpad5");
            assert("ArrowUp"@[0] != "Numpad5"@[0]);
            reveal_strlit("Numpad6");
            assert("ArrowUp"@[0] != "Numpad6"@[0]);
            reveal_strlit("Numpad1");
            assert("ArrowUp"@[0] != "Numpad1"@[0]);
            reveal_strlit("Numpad2");
            assert("ArrowUp"@[0] != "Numpad2"@[0]);
            reveal_strlit("Numpad3");
            assert("ArrowUp"@[0] != "Numpad3"@[0]);
            reveal_strlit("Numpad0");
            assert("ArrowUp"@[0] != "Numpad0"@[0]);
            reveal_strlit("Convert");
            assert("ArrowUp"@[0] != "Convert"@[0]);
            assert("ArrowUp"@.take(6)[0] != "evdev:"@[0]);
        }
    }
    if c == 104 {
        assert(named_key_code("PageUp"@) == Some(104u16) && !has_prefix("PageUp"@, "evdev:"@)) by {
            reveal_strlit("PageUp");
            reveal_strlit("Escape");
            assert("PageUp"@[0] != "Escape"@[0]);
            reveal_strlit("Digit1");
            assert("PageUp"@[0] != "Digit1"@[0]);
            reveal_strlit("Digit2");
            assert("PageUp"@[0] != "Digit2"@[0]);
            reveal_strlit("Digit3");
            assert("PageUp"@[0] != "Digit3"@[0]);
            reveal_strlit("Digit4");
            assert("PageUp"@[0] != "Digit4"@[0]);
            reveal_strlit("Digit5");
            assert("PageUp"@[0] != "Digit5"@[0]);
            reveal_strlit("Digit6");
            assert("PageUp"@[0] != "Digit6"@[0]);
            reveal_strlit("Digit7");
            assert("PageUp"@[0] != "Digit7"@[0]);
            reveal_strlit("Digit8");
            assert("PageUp"@[0] != "Digit8"@[0]);
            reveal_strlit("Digit9");
            assert("PageUp"@[0] != "Digit9"@[0]);
            reveal_strlit("Digit0");
            assert("PageUp"@[0] != "Digit0"@[0]);
            reveal_strlit("Period");
            assert("PageUp"@[1] != "Period"@[1]);
            reveal_strlit("IntlRo");
            assert("PageUp"@[0] != "IntlRo"@[0]);
            assert("PageUp"@.take(6)[0] != "evdev:"@[0]);
        }
    }
    if c == 105 {
        assert(named_key_code("ArrowLeft"@) == Some(105u16) && !has_prefix("ArrowLeft"@, "evdev:"@)) by {
            reveal_strlit("ArrowLeft");
            reveal_strlit("Backspace");
            assert("ArrowLeft"@[0] != "Backspace"@[0]);
            reveal_strlit("Semicolon");
            assert("ArrowLeft"@[0] != "Semicolon"@[0]);
            reveal_strlit("Backquote");
            assert("ArrowLeft"@[0] != "Backquote"@[0]);
            reveal_strlit("ShiftLeft");
            assert("ArrowLeft"@[0] != "ShiftLeft"@[0]);
            reveal_strlit("Backslash");
            assert("ArrowLeft"@[0] != "Backslash"@[0]);
            reveal_strlit("NumpadAdd");
            assert("ArrowLeft"@[0] != "NumpadAdd"@[0]);
            assert("ArrowLeft"@.take(6)[0] != "evdev:"@[0]);
        }
    }
    if c == 106 {
        assert(named_key_code("ArrowRight"@) == Some(106u16) && !has_prefix("ArrowRight"@, "evdev:"@)) by {
            reveal_strlit("ArrowRight");
            reveal_strlit("ShiftRight");
            assert("ArrowRight"@[0] != "ShiftRight"@[0]);
            reveal_strlit("ScrollLock");
            assert("ArrowRight"@[0] != "ScrollLock"@[0]);
            reveal_strlit("NonConvert");
            assert("ArrowRight"@[0] != "NonConvert"@[0]);
            assert("ArrowRight"@.take(6)[0] != "evdev:"@[0]);
        }
    }
    if c == 107 {
        assert(named_key_code("End"@) == Some(107u16) && !has_prefix("End"@, "evdev:"@)) by {
            reveal_strlit("End");
            reveal_strlit("Tab");
            assert("End"@[0] != "Tab"@[0]);
            reveal_strlit("F10");
            assert("End"@[0] != "F10"@[0]);
            reveal_strlit("F11");
            assert("End"@[0] != "F11"@[0]);
            reveal_strlit("F12");
            assert("End"@[0] != "F12"@[0]);
        }
    }
    if c == 108 {
        assert(named_key_code("ArrowDown"@) == Some(108u16) && !has_prefix("ArrowDown"@, "evdev:"@)) by {
            reveal_strlit("ArrowDown");
            reveal_strlit("Backspace");
            assert("ArrowDown"@[0] != "Backspace"@[0]);
            reveal_strlit("Semicolon");
            assert("ArrowDown"@[0] != "Semicolon"@[0]);
            reveal_strlit("Backquote");
            assert("ArrowDown"@[0] != "Backquote"@[0]);
            reveal_strlit("ShiftLeft");
            assert("ArrowDown"@[0] != "ShiftLeft"@[0]);
            reveal_strlit("Backslash");
            assert("ArrowDown"@[0] != "Backslash"@[0]);
            reveal_strlit("NumpadAdd");
            assert("ArrowDown"@[0] != "NumpadAdd"@[0]);
            reveal_strlit("ArrowLeft");
            assert("ArrowDown"@[5] != "ArrowLeft"@[5]);
            assert("ArrowDown"@.take(6)[0] != "evdev:"@[0]);
        }
    }
    if c == 109 {
        assert(named_key_code("PageDown"@) == Some(109u16) && !has_prefix("PageDown"@, "evdev:"@)) by {
            reveal_strlit("PageDown");
            reveal_strlit("CapsLock");
            assert("PageDown"@[0] != "CapsLock"@[0]);
            reveal_strlit("KanaMode");
            assert("PageDown"@[0] != "KanaMode"@[0]);
            reveal_strlit("AltRight");
            assert("PageDown"@[0] != "AltRight"@[0]);
            assert("PageDown"@.take(6)[0] != "evdev:"@[0]);
        }
    }
    if c == 110 {
        assert(named_key_code("Insert"@) == Some(110u16) && !has_prefix("Insert"@, "evdev:"@)) by {
            reveal_strlit("Insert");
            reveal_strlit("Escape");
            assert("Insert"@[0] != "Escape"@[0]);
            reveal_strlit("Digit1");
            assert("Insert"@[0] != "Digit1"@[0]);
            reveal_strlit("Digit2");
            assert("Insert"@[0] != "Digit2"@[0]);
            reveal_strlit("Digit3");
            assert("Insert"@[0] != "Digit3"@[0]);
            reveal_strlit("Digit4");
            assert("Insert"@[0] != "Digit4"@[0]);
            reveal_strlit("Digit5");
            assert("Insert"@[0] != "Digit5"@[0]);
            reveal_strlit("Digit6");
            assert("Insert"@[0] != "Digit6"@[0]);
            reveal_strlit("Digit7");
            assert("Insert"@[0] != "Digit7"@[0]);
            reveal_strlit("Digit8");
            assert("Insert"@[0] != "Digit8"@[0]);
            reveal_strlit("Digit9");
            assert("Insert"@[0] != "Digit9"@[0]);
            reveal_strlit("Digit0");
            assert("Insert"@[0] != "Digit0"@[0]);
            reveal_strlit("Period");
            assert("Insert"@[0] != "Period"@[0]);
            reveal_strlit("IntlRo");
            assert("Insert"@[2] != "IntlRo"@[2]);
            reveal_strlit("PageUp");
            assert("Insert"@[0] != "PageUp"@[0]);
            assert("Insert"@.take(6)[0] != "evdev:"@[0]);
        }
    }
    if c == 111 {
        assert(named_key_code("Delete"@) == Some(111u16) && !has_prefix("Delete"@, "evdev:"@)) by {
            reveal_strlit("Delete");
            reveal_strlit("Escape");
            assert("Delete"@[0] != "Escape"@[0]);
            reveal_strlit("Digit1");
            assert("Delete"@[1] != "Digit1"@[1]);
            reveal_strlit("Digit2");
            assert("Delete"@[1] != "Digit2"@[1]);
            reveal_strlit("Digit3");
            assert("Delete"@[1] != "Digit3"@[1]);
            reveal_strlit("Digit4");
            assert("Delete"@[1] != "Digit4"@[1]);
            reveal_strlit("Digit5");
            assert("Delete"@[1] != "Digit5"@[1]);
            reveal_strlit("Digit6");
            assert("Delete"@[1] != "Digit6"@[1]);
            reveal_strlit("Digit7");
            assert("Delete"@[1] != "Digit7"@[1]);
            reveal_strlit("Digit8");
            assert("Delete"@[1] != "Digit8"@[1]);
            reveal_strlit("Digit9");
            assert("Delete"@[1] != "Digit9"@[1]);
            reveal_strlit("Digit0");
            assert("Delete"@[1] != "Digit0"@[1]);
            reveal_strlit("Period");
            assert("Delete"@[0] != "Period"@[0]);
            reveal_strlit("IntlRo");
            assert("Delete"@[0] != "IntlRo"@[0]);
            reveal_strlit("PageUp");
            assert("Delete"@[0] != "PageUp"@[0]);
            reveal_strlit("Insert");
            assert("Delete"@[0] != "Insert"@[0]);
            assert("Delete"@.take(6)[0] != "evdev:"@[0]);
        }
    }
    if c == 119 {
        assert(named_key_code("Pause"@) == Some(119u16) && !has_prefix("Pause"@, "evdev:"@)) by {
            reveal_strlit("Pause");
            reveal_strlit("Minus");
            assert("Pause"@[0] != "Minus"@[0]);
            reveal_strlit("Equal");
            assert("Pause"@[0] != "Equal"@[0]);
            reveal_strlit("Enter");
            assert("Pause"@[0] != "Enter"@[0]);
            reveal_strlit("Quote");
            assert("Pause"@[0] != "Quote"@[0]);
            reveal_strlit("Comma");
            assert("Pause"@[0] != "Comma"@[0]);
            reveal_strlit("Slash");
            assert("Pause"@[0] != "Slash"@[0]);
            reveal_strlit("Space");
            assert("Pause"@[0] != "Space"@[0]);
        }
    }
    if c == 125 {
        assert(named_key_code("SuperLeft"@) == Some(125u16) && !has_prefix("SuperLeft"@, "evdev:"@)) by {
            reveal_strlit("SuperLeft");
            reveal_strlit("Backspace");
            assert("SuperLeft"@[0] != "Backspace"@[0]);
            reveal_strlit("Semicolon");
            assert("SuperLeft"@[1] != "Semicolon"@[1]);
            reveal_strlit("Backquote");
            assert("SuperLeft"@[0] != "Backquote"@[0]);
            reveal_strlit("ShiftLeft");
            assert("SuperLeft"@[1] != "ShiftLeft"@[1]);
            reveal_strlit("Backslash");
            assert("SuperLeft"@[0] != "Backslash"@[0]);
            reveal_strlit("NumpadAdd");
            assert("SuperLeft"@[0] != "NumpadAdd"@[0]);
            reveal_strlit("ArrowLeft");
            assert("SuperLeft"@[0] != "ArrowLeft"@[0]);
            reveal_strlit("ArrowDown");
            assert("SuperLeft"@[0] != "ArrowDown"@[0]);
            assert("SuperLeft"@.take(6)[0] != "evdev:"@[0]);
        }
    }
    if c == 126 {
        assert(named_key_code("SuperRight"@) == Some(126u16) && !has_prefix("SuperRight"@, "evdev:"@)) by {
            reveal_strlit("SuperRight");
            reveal_strlit("ShiftRight");
            assert("SuperRight"@[1] != "ShiftRight"@[1]);
            reveal_strlit("ScrollLock");
            assert("SuperRight"@[1] != "ScrollLock"@[1]);
            reveal_strlit("NonConvert");
            assert("SuperRight"@[0] != "NonConvert"@[0]);
            reveal_strlit("ArrowRight");
            assert("SuperRight"@[0] != "ArrowRight"@[0]);
            assert("SuperRight"@.take(6)[0] != "evdev:"@[0]);
        }
    }
    if c == 127 {
        assert(named_key_code("ContextMenu"@) == Some(127u16) && !has_prefix("ContextMenu"@, "evdev:"@)) by {
            reveal_strlit("ContextMenu");
            reveal_strlit("BracketLeft");
            assert("ContextMenu"@[0] != "BracketLeft"@[0]);
            reveal_strlit("ControlLeft");
            assert("ContextMenu"@[4] != "ControlLeft"@[4]);
            reveal_strlit("NumpadEnter");
            assert("ContextMenu"@[0] != "NumpadEnter"@[0]);
            reveal_strlit("PrintScreen");
            assert("ContextMenu"@[0] != "PrintScreen"@[0]);
            assert("ContextMenu"@.take(6)[0] != "evdev:"@[0]);
        }
    }
    if c == 138 {
        assert(named_key_code("Help"@) == Some(138u16) && !has_prefix("Help"@, "evdev:"@)) by {
            reveal_strlit("Help");
            reveal_strlit("KeyQ");
            assert("Help"@[0] != "KeyQ"@[0]);
            reveal_strlit("KeyW");
            assert("Help"@[0] != "KeyW"@[0]);
            reveal_strlit("KeyE");
            assert("Help"@[0] != "KeyE"@[0]);
            reveal_strlit("KeyR");
            assert("Help"@[0] != "KeyR"@[0]);
            reveal_strlit("KeyT");
            assert("Help"@[0] != "KeyT"@[0]);
            reveal_strlit("KeyY");
            assert("Help"@[0] != "KeyY"@[0]);
            reveal_strlit("KeyU");
            assert("Help"@[0] != "KeyU"@[0]);
            reveal_strlit("KeyI");
            assert("Help"@[0] != "KeyI"@[0]);
            reveal_strlit("KeyO");
            assert("Help"@[0] != "KeyO"@[0]);
            reveal_strlit("KeyP");
            assert("Help"@[0] != "KeyP"@[0]);
            reveal_strlit("KeyA");
            assert("Help"@[0] != "KeyA"@[0]);
            reveal_strlit("KeyS");
            assert("Help"@[0] != "KeyS"@[0]);
            reveal_strlit("KeyD");
            assert("Help"@[0] != "KeyD"@[0]);
            reveal_strlit("KeyF");
            assert("Help"@[0] != "KeyF"@[0]);
            reveal_strlit("KeyG");
            assert("Help"@[0] != "KeyG"@[0]);
            reveal_strlit("KeyH");
            assert("Help"@[0] != "KeyH"@[0]);
            reveal_strlit("KeyJ");
            assert("Help"@[0] != "KeyJ"@[0]);
            reveal_strlit("KeyK");
            assert("Help"@[0] != "KeyK"@[0]);
            reveal_strlit("KeyL");
            assert("Help"@[0] != "KeyL"@[0]);
            reveal_strlit("KeyZ");
            assert("Help"@[0] != "KeyZ"@[0]);
            reveal_strlit("KeyX");
            assert("Help"@[0] != "KeyX"@[0]);
            reveal_strlit("KeyC");
            assert("Help"@[0] != "KeyC"@[0]);
            reveal_strlit("KeyV");
            assert("Help"@[0] != "KeyV"@[0]);
            reveal_strlit("KeyB");
            assert("Help"@[0] != "KeyB"@[0]);
            reveal_strlit("KeyN");
            assert("Help"@[0] != "KeyN"@[0]);
            reveal_strlit("KeyM");
            assert("Help"@[0] != "KeyM"@[0]);
            reveal_strlit("Home");
            assert("Help"@[1] != "Home"@[1]);
        }
    }
    if c == 122 {
        assert(named_key_code("Lang1"@) == Some(122u16) && !has_prefix("Lang1"@, "evdev:"@)) by {
            reveal_strlit("Lang1");
            reveal_strlit("Minus");
            assert("Lang1"@[0] != "Minus"@[0]);
            reveal_strlit("Equal");
            assert("Lang1"@[0] != "Equal"@[0]);
            reveal_strlit("Enter");
            assert("Lang1"@[0] != "Enter"@[0]);
            reveal_strlit("Quote");
            assert("Lang1"@[0] != "Quote"@[0]);
            reveal_strlit("Comma");
            assert("Lang1"@[0] != "Comma"@[0]);
            reveal_strlit("Slash");
            assert("Lang1"@[0] != "Slash"@[0]);
            reveal_strlit("Space");
            assert("Lang1"@[0] != "Space"@[0]);
            reveal_strlit("Pause");
            assert("Lang1"@[0] != "Pause"@[0]);
        }
    }
    if c == 123 {
        assert(named_key_code("Lang2"@) == Some(123u16) && !has_prefix("Lang2"@, "evdev:"@)) by {
            reveal_strlit("Lang2");
            reveal_strlit("Minus");
            assert("Lang2"@[0] != "Minus"@[0]);
            reveal_strlit("Equal");
            assert("Lang2"@[0] != "Equal"@[0]);
            reveal_strlit("Enter");
            assert("Lang2"@[0] != "Enter"@[0]);
            reveal_strlit("Quote");
            assert("Lang2"@[0] != "Quote"@[0]);
            reveal_strlit("Comma");
            assert("Lang2"@[0] != "Comma"@[0]);
            reveal_strlit("Slash");
            assert("Lang2"@[0] != "Slash"@[0]);
            reveal_strlit("Space");
            assert("Lang2"@[0] != "Space"@[0]);
            reveal_strlit("Pause");
            assert("Lang2"@[0] != "Pause"@[0]);
            reveal_strlit("Lang1");
            assert("Lang2"@[4] != "Lang1"@[4]);
        }
    }
    if c == 90 {
        assert(named_key_code("Lang3"@) == Some(90u16) && !has_prefix("Lang3"@, "evdev:"@)) by {
            reveal_strlit("Lang3");
            reveal_strlit("Minus");
            assert("Lang3"@[0] != "Minus"@[0]);
            reveal_strlit("Equal");
            assert("Lang3"@[0] != "Equal"@[0]);
            reveal_strlit("Enter");
            assert("Lang3"@[0] != "Enter"@[0]);
            reveal_strlit("Quote");
            assert("Lang3"@[0] != "Quote"@[0]);
            reveal_strlit("Comma");
            assert("Lang3"@[0] != "Comma"@[0]);
            reveal_strlit("Slash");
            assert("Lang3"@[0] != "Slash"@[0]);
            reveal_strlit("Space");
            assert("Lang3"@[0] != "Space"@[0]);
            reveal_strlit("Pause");
            assert("Lang3"@[0] != "Pause"@[0]);
            reveal_strlit("Lang1");
            assert("Lang3"@[4] != "Lang1"@[4]);
            reveal_strlit("Lang2");
            assert("Lang3"@[4] != "Lang2"@[4]);
        }
    }
    if c == 91 {
        assert(named_key_code("Lang4"@) == Some(91u16) && !has_prefix("Lang4"@, "evdev:"@)) by {
            reveal_strlit("Lang4");
            reveal_strlit("Minus");
            assert("Lang4"@[0] != "Minus"@[0]);
            reveal_strlit("Equal");
            assert("Lang4"@[0] != "Equal"@[0]);
            reveal_strlit("Enter");
            assert("Lang4"@[0] != "Enter"@[0]);
            reveal_strlit("Quote");
            assert("Lang4"@[0] != "Quote"@[0]);
            reveal_strlit("Comma");
            assert("Lang4"@[0] != "Comma"@[0]);
            reveal_strlit("Slash");
            assert("Lang4"@[0] != "Slash"@[0]);
            reveal_strlit("Space");
            assert("Lang4"@[0] != "Space"@[0]);
            reveal_strlit("Pause");
            assert("Lang4"@[0] != "Pause"@[0]);
            reveal_strlit("Lang1");
            assert("Lang4"@[4] != "Lang1"@[4]);
            reveal_strlit("Lang2");
            assert("Lang4"@[4] != "Lang2"@[4]);
            reveal_strlit("Lang3");
            assert("Lang4"@[4] != "Lang3"@[4]);
        }
    }
    if c == 85 {
        assert(named_key_code("Lang5"@) == Some(85u16) && !has_prefix("Lang5"@, "evdev:"@)) by {
            reveal_strlit("Lang5");
            reveal_strlit("Minus");
            assert("Lang5"@[0] != "Minus"@[0]);
            reveal_strlit("Equal");
            assert("Lang5"@[0] != "Equal"@[0]);
            reveal_strlit("Enter");
            assert("Lang5"@[0] != "Enter"@[0]);
            reveal_strlit("Quote");
            assert("Lang5"@[0] != "Quote"@[0]);
            reveal_strlit("Comma");
            assert("Lang5"@[0] != "Comma"@[0]);
            reveal_strlit("Slash");
            assert("Lang5"@[0] != "Slash"@[0]);
            reveal_strlit("Space");
            assert("Lang5"@[0] != "Space"@[0]);
            reveal_strlit("Pause");
            assert("Lang5"@[0] != "Pause"@[0]);
            reveal_strlit("Lang1");
            assert("Lang5"@[4] != "Lang1"@[4]);
            reveal_strlit("Lang2");
            assert("Lang5"@[4] != "Lang2"@[4]);
            reveal_strlit("Lang3");
            assert("Lang5"@[4] != "Lang3"@[4]);
            reveal_strlit("Lang4");
            assert("Lang5"@[4] != "Lang4"@[4]);
        }
    }
    if c == 121 {
        assert(named_key_code("NumpadComma"@) == Some(121u16) && !has_prefix("NumpadComma"@, "evdev:"@)) by {
            reveal_strlit("NumpadComma");
            reveal_strlit("BracketLeft");
            assert("NumpadComma"@[0] != "BracketLeft"@[0]);
            reveal_strlit("ControlLeft");
            assert("NumpadComma"@[0] != "ControlLeft"@[0]);
            reveal_strlit("NumpadEnter");
            assert("NumpadComma"@[6] != "NumpadEnter"@[6]);
            reveal_strlit("PrintScreen");
            assert("NumpadComma"@[0] != "PrintScreen"@[0]);
            reveal_strlit("ContextMenu");
            assert("NumpadComma"@[0] != "ContextMenu"@[0]);
            assert("NumpadComma"@.take(6)[0] != "evdev:"@[0]);
        }
    }
    if c == 117 {
        assert(named_key_code("NumpadEqual"@) == Some(117u16) && !has_prefix("NumpadEqual"@, "evdev:"@)) by {
            reveal_strlit("NumpadEqual");
            reveal_strlit("BracketLeft");
            assert("NumpadEqual"@[0] != "BracketLeft"@[0]);
            reveal_strlit("ControlLeft");
            assert("NumpadEqual"@[0] != "ControlLeft"@[0]);
            reveal_strlit("NumpadEnter");
            assert("NumpadEqual"@[7] != "NumpadEnter"@[7]);
            reveal_strlit("PrintScreen");
            assert("NumpadEqual"@[0] != "PrintScreen"@[0]);
            reveal_strlit("ContextMenu");
            assert("NumpadEqual"@[0] != "ContextMenu"@[0]);
            reveal_strlit("NumpadComma");
            assert("NumpadEqual"@[6] != "NumpadComma"@[6]);
            assert("NumpadEqual"@.take(6)[0] != "evdev:"@[0]);
        }
    }
}

/// Every key name is a single word: no spaces or other whitespace.
#[verifier::spinoff_prover]
#[verifier::rlimit(100)]
pub proof fn lemma_key_names_plain(c: u16)
    requires
        key_code_name(c) is Some,
    ensures
        plain_word(key_code_name(c).unwrap()),
{
    if c == 1 {
        assert(plain_word("Escape"@)) by {
            reveal_strlit("Escape");
            reveal_with_fuel(plain_word, 15);
        }
    }
    if c == 2 {
        assert(plain_word("Digit1"@)) by {
            reveal_strlit("Digit1");
            reveal_with_fuel(plain_word, 15);
        }
    }
    if c == 3 {
        assert(plain_word("Digit2"@)) by {
            reveal_strlit("Digit2");
            reveal_with_fuel(plain_word, 15);
        }
    }
    if c == 4 {
        assert(plain_word("Digit3"@)) by {
            reveal_strlit("Digit3");
            reveal_with_fuel(plain_word, 15);
        }
    }
    if c == 5 {
        assert(plain_word("Digit4"@)) by {
            reveal_strlit("Digit4");
            reveal_with_fuel(plain_word, 15);
        }
    }
    if c == 6 {
        assert(plain_word("Digit5"@)) by {
            reveal_strlit("Digit5");
            reveal_with_fuel(plain_word, 15);
        }
    }
    if c == 7 {
        assert(plain_word("Digit6"@)) by {
            reveal_strlit("Digit6");
            reveal_with_fuel(plain_word, 15);
        }
    }
    if c == 8 {
        assert(plain_word("Digit7"@)) by {
            reveal_strlit("Digit7");
            reveal_with_fuel(plain_word, 15);
        }
    }
    if c == 9 {
        assert(plain_word("Digit8"@)) by {
            reveal_strlit("Digit8");
            reveal_with_fuel(plain_word, 15);
        }
    }
    if c == 10 {
        assert(plain_word("Digit9"@)) by {
            reveal_strlit("Digit9");
            reveal_with_fuel(plain_word, 15);
        }
    }
    if c == 11 {
        assert(plain_word("Digit0"@)) by {
            reveal_strlit("Digit0");
            reveal_with_fuel(plain_word, 15);
        }
    }
    if c == 12 {
        assert(plain_word("Minus"@)) by {
            reveal_strlit("Minus");
            reveal_with_fuel(plain_word, 15);
        }
    }
    if c == 13 {
        assert(plain_word("Equal"@)) by {
            reveal_strlit("Equal");
            reveal_with_fuel(plain_word, 15);
        }
    }
    if c == 14 {
        assert(plain_word("Backspace"@)) by {
            reveal_strlit("Backspace");
            reveal_with_fuel(plain_word, 15);
        }
    }
    if c == 15 {
        assert(plain_word("Tab"@)) by {
            reveal_strlit("Tab");
            reveal_with_fuel(plain_word, 15);
        }
    }
    if c == 16 {
        assert(plain_word("KeyQ"@)) by {
            reveal_strlit("KeyQ");
            reveal_with_fuel(plain_word, 15);
        }
    }
    if c == 17 {
        assert(plain_word("KeyW"@)) by {
            reveal_strlit("KeyW");
            reveal_with_fuel(plain_word, 15);
        }
    }
    if c == 18 {
        assert(plain_word("KeyE"@)) by {
            reveal_strlit("KeyE");
            reveal_with_fuel(plain_word, 15);
        }
    }
    if c == 19 {
        assert(plain_word("KeyR"@)) by {
            reveal_strlit("KeyR");
            reveal_with_fuel(plain_word, 15);
        }
    }
    if c == 20 {
        assert(plain_word("KeyT"@)) by {
            reveal_strlit("KeyT");
            reveal_with_fuel(plain_word, 15);
        }
    }
    if c == 21 {
        assert(plain_word("KeyY"@)) by {
            reveal_strlit("KeyY");
            reveal_with_fuel(plain_word, 15);
        }
    }
    if c == 22 {
        assert(plain_word("KeyU"@)) by {
            reveal_strlit("KeyU");
            reveal_with_fuel(plain_word, 15);
        }
    }
    if c == 23 {
        assert(plain_word("KeyI"@)) by {
            reveal_strlit("KeyI");
            reveal_with_fuel(plain_word, 15);
        }
    }
    if c == 24 {
        assert(plain_word("KeyO"@)) by {
            reveal_strlit("KeyO");
            reveal_with_fuel(plain_word, 15);
        }
    }
    if c == 25 {
        assert(plain_word("KeyP"@)) by {
            reveal_strlit("KeyP");
            reveal_with_fuel(plain_word, 15);
        }
    }
    if c == 26 {
        assert(plain_word("BracketLeft"@)) by {
            reveal_strlit("BracketLeft");
            reveal_with_fuel(plain_word, 15);
        }
    }
    if c == 27 {
        assert(plain_word("BracketRight"@)) by {
            reveal_strlit("BracketRight");
            reveal_with_fuel(plain_word, 15);
        }
    }
    if c == 28 {
        assert(plain_word("Enter"@)) by {
            reveal_strlit("Enter");
            reveal_with_fuel(plain_word, 15);
        }
    }
    if c == 29 {
        assert(plain_word("ControlLeft"@)) by {
            reveal_strlit("ControlLeft");
            reveal_with_fuel(plain_word, 15);
        }
    }
    if c == 30 {
        assert(plain_word("KeyA"@)) by {
            reveal_strlit("KeyA");
            reveal_with_fuel(plain_word, 15);
        }
    }
    if c == 31 {
        assert(plain_word("KeyS"@)) by {
            reveal_strlit("KeyS");
            reveal_with_fuel(plain_word, 15);
        }
    }
    if c == 32 {
        assert(plain_word("KeyD"@)) by {
            reveal_strlit("KeyD");
            reveal_with_fuel(plain_word, 15);
        }
    }
    if c == 33 {
        assert(plain_word("KeyF"@)) by {
            reveal_strlit("KeyF");
            reveal_with_fuel(plain_word, 15);
        }
    }
    if c == 34 {
        assert(plain_word("KeyG"@)) by {
            reveal_strlit("KeyG");
            reveal_with_fuel(plain_word, 15);
        }
    }
    if c == 35 {
        assert(plain_word("KeyH"@)) by {
            reveal_strlit("KeyH");
            reveal_with_fuel(plain_word, 15);
        }
    }
    if c == 36 {
        assert(plain_word("KeyJ"@)) by {
            reveal_strlit("KeyJ");
            reveal_with_fuel(plain_word, 15);
        }
    }
    if c == 37 {
        assert(plain_word("KeyK"@)) by {
            reveal_strlit("KeyK");
            reveal_with_fuel(plain_word, 15);
        }
    }
    if c == 38 {
        assert(plain_word("KeyL"@)) by {
            reveal_strlit("KeyL");
            reveal_with_fuel(plain_word, 15);
        }
    }
    if c == 39 {
        assert(plain_word("Semicolon"@)) by {
            reveal_strlit("Semicolon");
            reveal_with_fuel(plain_word, 15);
        }
    }
    if c == 40 {
        assert(plain_word("Quote"@)) by {
            reveal_strlit("Quote");
            reveal_with_fuel(plain_word, 15);
        }
    }
    if c == 41 {
        assert(plain_word("Backquote"@)) by {
            reveal_strlit("Backquote");
            reveal_with_fuel(plain_word, 15);
        }
    }
    if c == 42 {
        assert(plain_word("ShiftLeft"@)) by {
            reveal_strlit("ShiftLeft");
            reveal_with_fuel(plain_word, 15);
        }
    }
    if c == 43 {
        assert(plain_word("Backslash"@)) by {
            reveal_strlit("Backslash");
            reveal_with_fuel(plain_word, 15);
        }
    }
    if c == 44 {
        assert(plain_word("KeyZ"@)) by {
            reveal_strlit("KeyZ");
            reveal_with_fuel(plain_word, 15);
        }
    }
    if c == 45 {
        assert(plain_word("KeyX"@)) by {
            reveal_strlit("KeyX");
            reveal_with_fuel(plain_word, 15);
        }
    }
    if c == 46 {
        assert(plain_word("KeyC"@)) by {
            reveal_strlit("KeyC");
            reveal_with_fuel(plain_word, 15);
        }
    }
    if c == 47 {
        assert(plain_word("KeyV"@)) by {
            reveal_strlit("KeyV");
            reveal_with_fuel(plain_word, 15);
        }
    }
    if c == 48 {
        assert(plain_word("KeyB"@)) by {
            reveal_strlit("KeyB");
            reveal_with_fuel(plain_word, 15);
        }
    }
    if c == 49 {
        assert(plain_word("KeyN"@)) by {
            reveal_strlit("KeyN");
            reveal_with_fuel(plain_word, 15);
        }
    }
    if c == 50 {
        assert(plain_word("KeyM"@)) by {
            reveal_strlit("KeyM");
            reveal_with_fuel(plain_word, 15);
        }
    }
    if c == 51 {
        assert(plain_word("Comma"@)) by {
            reveal_strlit("Comma");
            reveal_with_fuel(plain_word, 15);
        }
    }
    if c == 52 {
        assert(plain_word("Period"@)) by {
            reveal_strlit("Period");
            reveal_with_fuel(plain_word, 15);
        }
    }
    if c == 53 {
        assert(plain_word("Slash"@)) by {
            reveal_strlit("Slash");
            reveal_with_fuel(plain_word, 15);
        }
    }
    if c == 54 {
        assert(plain_word("ShiftRight"@)) by {
            reveal_strlit("ShiftRight");
            reveal_with_fuel(plain_word, 15);
        }
    }
    if c == 55 {
        assert(plain_word("NumpadMultiply"@)) by {
            reveal_strlit("NumpadMultiply");
            reveal_with_fuel(plain_word, 15);
        }
    }
    if c == 56 {
        assert(plain_word("AltLeft"@)) by {
            reveal_strlit("AltLeft");
            reveal_with_fuel(plain_word, 15);
        }
    }
    if c == 57 {
        assert(plain_word("Space"@)) by {
            reveal_strlit("Space");
            reveal_with_fuel(plain_word, 15);
        }
    }
    if c == 58 {
        assert(plain_word("CapsLock"@)) by {
            reveal_strlit("CapsLock");
            reveal_with_fuel(plain_word, 15);
        }
    }
    if c == 59 {
        assert(plain_word("F1"@)) by {
            reveal_strlit("F1");
            reveal_with_fuel(plain_word, 15);
        }
    }
    if c == 60 {
        assert(plain_word("F2"@)) by {
            reveal_strlit("F2");
            reveal_with_fuel(plain_word, 15);
        }
    }
    if c == 61 {
        assert(plain_word("F3"@)) by {
            reveal_strlit("F3");
            reveal_with_fuel(plain_word, 15);
        }
    }
    if c == 62 {
        assert(plain_word("F4"@)) by {
            reveal_strlit("F4");
            reveal_with_fuel(plain_word, 15);
        }
    }
    if c == 63 {
        assert(plain_word("F5"@)) by {
            reveal_strlit("F5");
            reveal_with_fuel(plain_word, 15);
        }
    }
    if c == 64 {
        assert(plain_word("F6"@)) by {
            reveal_strlit("F6");
            reveal_with_fuel(plain_word, 15);
        }
    }
    if c == 65 {
        assert(plain_word("F7"@)) by {
            reveal_strlit("F7");
            reveal_with_fuel(plain_word, 15);
        }
    }
    if c == 66 {
        assert(plain_word("F8"@)) by {
            reveal_strlit("F8");
            reveal_with_fuel(plain_word, 15);
        }
    }
    if c == 67 {
        assert(plain_word("F9"@)) by {
            reveal_strlit("F9");
            reveal_with_fuel(plain_word, 15);
        }
    }
    if c == 68 {
        assert(plain_word("F10"@)) by {
            reveal_strlit("F10");
            reveal_with_fuel(plain_word, 15);
        }
    }
    if c == 69 {
        assert(plain_word("NumLock"@)) by {
            reveal_strlit("NumLock");
            reveal_with_fuel(plain_word, 15);
        }
    }
    if c == 70 {
        assert(plain_word("ScrollLock"@)) by {
            reveal_strlit("ScrollLock");
            reveal_with_fuel(plain_word, 15);
        }
    }
    if c == 71 {
        assert(plain_word("Numpad7"@)) by {
            reveal_strlit("Numpad7");
            reveal_with_fuel(plain_word, 15);
        }
    }
    if c == 72 {
        assert(plain_word("Numpad8"@)) by {
            reveal_strlit("Numpad8");
            reveal_with_fuel(plain_word, 15);
        }
    }
    if c == 73 {
        assert(plain_word("Numpad9"@)) by {
            reveal_strlit("Numpad9");
            reveal_with_fuel(plain_word, 15);
        }
    }
    if c == 74 {
        assert(plain_word("NumpadSubtract"@)) by {
            reveal_strlit("NumpadSubtract");
            reveal_with_fuel(plain_word, 15);
        }
    }
    if c == 75 {
        assert(plain_word("Numpad4"@)) by {
            reveal_strlit("Numpad4");
            reveal_with_fuel(plain_word, 15);
        }
    }
    if c == 76 {
        assert(plain_word("Numpad5"@)) by {
            reveal_strlit("Numpad5");
            reveal_with_fuel(plain_word, 15);
        }
    }
    if c == 77 {
        assert(plain_word("Numpad6"@)) by {
            reveal_strlit("Numpad6");
            reveal_with_fuel(plain_word, 15);
        }
    }
    if c == 78 {
        assert(plain_word("NumpadAdd"@)) by {
            reveal_strlit("NumpadAdd");
            reveal_with_fuel(plain_word, 15);
        }
    }
    if c == 79 {
        assert(plain_word("Numpad1"@)) by {
            reveal_strlit("Numpad1");
            reveal_with_fuel(plain_word, 15);
        }
    }
    if c == 80 {
        assert(plain_word("Numpad2"@)) by {
            reveal_strlit("Numpad2");
            reveal_with_fuel(plain_word, 15);
        }
    }
    if c == 81 {
        assert(plain_word("Numpad3"@)) by {
            reveal_strlit("Numpad3");
            reveal_with_fuel(plain_word, 15);
        }
    }
    if c == 82 {
        assert(plain_word("Numpad0"@)) by {
            reveal_strlit("Numpad0");
            reveal_with_fuel(plain_word, 15);
        }
    }
    if c == 83 {
        assert(plain_word("NumpadDecimal"@)) by {
            reveal_strlit("NumpadDecimal");
            reveal_with_fuel(plain_word, 15);
        }
    }
    if c == 86 {
        assert(plain_word("IntlBackslash"@)) by {
            reveal_strlit("IntlBackslash");
            reveal_with_fuel(plain_word, 15);
        }
    }
    if c == 87 {
        assert(plain_word("F11"@)) by {
            reveal_strlit("F11");
            reveal_with_fuel(plain_word, 15);
        }
    }
    if c == 88 {
        assert(plain_word("F12"@)) by {
            reveal_strlit("F12");
            reveal_with_fuel(plain_word, 15);
        }
    }
    if c == 89 {
        assert(plain_word("IntlRo"@)) by {
            reveal_strlit("IntlRo");
            reveal_with_fuel(plain_word, 15);
        }
    }
    if c == 92 {
        assert(plain_word("Convert"@)) by {
            reveal_strlit("Convert");
            reveal_with_fuel(plain_word, 15);
        }
    }
    if c == 93 {
        assert(plain_word("KanaMode"@)) by {
            reveal_strlit("KanaMode");
            reveal_with_fuel(plain_word, 15);
        }
    }
    if c == 94 {
        assert(plain_word("NonConvert"@)) by {
            reveal_strlit("NonConvert");
            reveal_with_fuel(plain_word, 15);
        }
    }
    if c == 96 {
        assert(plain_word("NumpadEnter"@)) by {
            reveal_strlit("NumpadEnter");
            reveal_with_fuel(plain_word, 15);
        }
    }
    if c == 97 {
        assert(plain_word("ControlRight"@)) by {
            reveal_strlit("ControlRight");
            reveal_with_fuel(plain_word, 15);
        }
    }
    if c == 98 {
        assert(plain_word("NumpadDivide"@)) by {
            reveal_strlit("NumpadDivide");
            reveal_with_fuel(plain_word, 15);
        }
    }
    if c == 99 {
        assert(plain_word("PrintScreen"@)) by {
            reveal_strlit("PrintScreen");
            reveal_with_fuel(plain_word, 15);
        }
    }
    if c == 100 {
        assert(plain_word("AltRight"@)) by {
            reveal_strlit("AltRight");
            reveal_with_fuel(plain_word, 15);
        }
    }
    if c == 102 {
        assert(plain_word("Home"@)) by {
            reveal_strlit("Home");
            reveal_with_fuel(plain_word, 15);
        }
    }
    if c == 103 {
        assert(plain_word("ArrowUp"@)) by {
            reveal_strlit("ArrowUp");
            reveal_with_fuel(plain_word, 15);
        }
    }
    if c == 104 {
        assert(plain_word("PageUp"@)) by {
            reveal_strlit("PageUp");
            reveal_with_fuel(plain_word, 15);
        }
    }
    if c == 105 {
        assert(plain_word("ArrowLeft"@)) by {
            reveal_strlit("ArrowLeft");
            reveal_with_fuel(plain_word, 15);
        }
    }
    if c == 106 {
        assert(plain_word("ArrowRight"@)) by {
            reveal_strlit("ArrowRight");
            reveal_with_fuel(plain_word, 15);
        }
    }
    if c == 107 {
        assert(plain_word("End"@)) by {
            reveal_strlit("End");
            reveal_with_fuel(plain_word, 15);
        }
    }
    if c == 108 {
        assert(plain_word("ArrowDown"@)) by {
            reveal_strlit("ArrowDown");
            reveal_with_fuel(plain_word, 15);
        }
    }
    if c == 109 {
        assert(plain_word("PageDown"@)) by {
            reveal_strlit("PageDown");
            reveal_with_fuel(plain_word, 15);
        }
    }
    if c == 110 {
        assert(plain_word("Insert"@)) by {
            reveal_strlit("Insert");
            reveal_with_fuel(plain_word, 15);
        }
    }
    if c == 111 {
        assert(plain_word("Delete"@)) by {
            reveal_strlit("Delete");
            reveal_with_fuel(plain_word, 15);
        }
    }
    if c == 119 {
        assert(plain_word("Pause"@)) by {
            reveal_strlit("Pause");
            reveal_with_fuel(plain_word, 15);
        }
    }
    if c == 125 {
        assert(plain_word("SuperLeft"@)) by {
            reveal_strlit("SuperLeft");
            reveal_with_fuel(plain_word, 15);
        }
    }
    if c == 126 {
        assert(plain_word("SuperRight"@)) by {
            reveal_strlit("SuperRight");
            reveal_with_fuel(plain_word, 15);
        }
    }
    if c == 127 {
        assert(plain_word("ContextMenu"@)) by {
            reveal_strlit("ContextMenu");
            reveal_with_fuel(plain_word, 15);
        }
    }
    if c == 138 {
        assert(plain_word("Help"@)) by {
            reveal_strlit("Help");
            reveal_with_fuel(plain_word, 15);
        }
    }
    if c == 122 {
        assert(plain_word("Lang1"@)) by {
            reveal_strlit("Lang1");
            reveal_with_fuel(plain_word, 15);
        }
    }
    if c == 123 {
        assert(plain_word("Lang2"@)) by {
            reveal_strlit("Lang2");
            reveal_with_fuel(plain_word, 15);
        }
    }
    if c == 90 {
        assert(plain_word("Lang3"@)) by {
            reveal_strlit("Lang3");
            reveal_with_fuel(plain_word, 15);
        }
    }
    if c == 91 {
        assert(plain_word("Lang4"@)) by {
            reveal_strlit("Lang4");
            reveal_with_fuel(plain_word, 15);
        }
    }
    if c == 85 {
        assert(plain_word("Lang5"@)) by {
            reveal_strlit("Lang5");
            reveal_with_fuel(plain_word, 15);
        }
    }
    if c == 121 {
        assert(plain_word("NumpadComma"@)) by {
            reveal_strlit("NumpadComma");
            reveal_with_fuel(plain_word, 15);
        }
    }
    if c == 117 {
        assert(plain_word("NumpadEqual"@)) by {
            reveal_strlit("NumpadEqual");
            reveal_with_fuel(plain_word, 15);
        }
    }
}

/// A name that starts with `m` and has more than one character is no key
/// name: every key name starts with another character.
#[verifier::spinoff_prover]
#[verifier::rlimit(100)]
pub proof fn lemma_m_name_not_key(n: Seq<char>)
    requires
        n.len() > 1,
        n[0] == 'm',
    ensures
        key_name_spec(n) is None,
{
    reveal_strlit("evdev:");
    assert(n.take(6)[0] == 'm' ==> !has_prefix(n, "evdev:"@));
    reveal_strlit("Escape");
    assert("Escape"@[0] != 'm');
    reveal_strlit("Digit1");
    assert("Digit1"@[0] != 'm');
    reveal_strlit("Digit2");
    assert("Digit2"@[0] != 'm');
    reveal_strlit("Digit3");
    assert("Digit3"@[0] != 'm');
    reveal_strlit("Digit4");
    assert("Digit4"@[0] != 'm');
    reveal_strlit("Digit5");
    assert("Digit5"@[0] != 'm');
    reveal_strlit("Digit6");
    assert("Digit6"@[0] != 'm');
    reveal_strlit("Digit7");
    assert("Digit7"@[0] != 'm');
    reveal_strlit("Digit8");
    assert("Digit8"@[0] != 'm');
    reveal_strlit("Digit9");
    assert("Digit9"@[0] != 'm');
    reveal_strlit("Digit0");
    assert("Digit0"@[0] != 'm');
    reveal_strlit("Minus");
    assert("Minus"@[0] != 'm');
    reveal_strlit("Equal");
    assert("Equal"@[0] != 'm');
    reveal_strlit("Backspace");
    assert("Backspace"@[0] != 'm');
    reveal_strlit("Tab");
    assert("Tab"@[0] != 'm');
    reveal_strlit("KeyQ");
    assert("KeyQ"@[0] != 'm');
    reveal_strlit("KeyW");
    assert("KeyW"@[0] != 'm');
    reveal_strlit("KeyE");
    assert("KeyE"@[0] != 'm');
    reveal_strlit("KeyR");
    assert("KeyR"@[0] != 'm');
    reveal_strlit("KeyT");
    assert("KeyT"@[0] != 'm');
    reveal_strlit("KeyY");
    assert("KeyY"@[0] != 'm');
    reveal_strlit("KeyU");
    assert("KeyU"@[0] != 'm');
    reveal_strlit("KeyI");
    assert("KeyI"@[0] != 'm');
    reveal_strlit("KeyO");
    assert("KeyO"@[0] != 'm');
    reveal_strlit("KeyP");
    assert("KeyP"@[0] != 'm');
    reveal_strlit("BracketLeft");
    assert("BracketLeft"@[0] != 'm');
    reveal_strlit("BracketRight");
    assert("BracketRight"@[0] != 'm');
    reveal_strlit("Enter");
    assert("Enter"@[0] != 'm');
    reveal_strlit("ControlLeft");
    assert("ControlLeft"@[0] != 'm');
    reveal_strlit("KeyA");
    assert("KeyA"@[0] != 'm');
    reveal_strlit("KeyS");
    assert("KeyS"@[0] != 'm');
    reveal_strlit("KeyD");
    assert("KeyD"@[0] != 'm');
    reveal_strlit("KeyF");
    assert("KeyF"@[0] != 'm');
    reveal_strlit("KeyG");
    assert("KeyG"@[0] != 'm');
    reveal_strlit("KeyH");
    assert("KeyH"@[0] != 'm');
    reveal_strlit("KeyJ");
    assert("KeyJ"@[0] != 'm');
    reveal_strlit("KeyK");
    assert("KeyK"@[0] != 'm');
    reveal_strlit("KeyL");
    assert("KeyL"@[0] != 'm');
    reveal_strlit("Semicolon");
    assert("Semicolon"@[0] != 'm');
    reveal_strlit("Quote");
    assert("Quote"@[0] != 'm');
    reveal_strlit("Backquote");
    assert("Backquote"@[0] != 'm');
    reveal_strlit("ShiftLeft");
    assert("ShiftLeft"@[0] != 'm');
    reveal_strlit("Backslash");
    assert("Backslash"@[0] != 'm');
    reveal_strlit("KeyZ");
    assert("KeyZ"@[0] != 'm');
    reveal_strlit("KeyX");
    assert("KeyX"@[0] != 'm');
    reveal_strlit("KeyC");
    assert("KeyC"@[0] != 'm');
    reveal_strlit("KeyV");
    assert("KeyV"@[0] != 'm');
    reveal_strlit("KeyB");
    assert("KeyB"@[0] != 'm');
    reveal_strlit("KeyN");
    assert("KeyN"@[0] != 'm');
    reveal_strlit("KeyM");
    assert("KeyM"@[0] != 'm');
    reveal_strlit("Comma");
    assert("Comma"@[0] != 'm');
    reveal_strlit("Period");
    assert("Period"@[0] != 'm');
    reveal_strlit("Slash");
    assert("Slash"@[0] != 'm');
    reveal_strlit("ShiftRight");
    assert("ShiftRight"@[0] != 'm');
    reveal_strlit("NumpadMultiply");
    assert("NumpadMultiply"@[0] != 'm');
    reveal_strlit("AltLeft");
    assert("AltLeft"@[0] != 'm');
    reveal_strlit("Space");
    assert("Space"@[0] != 'm');
    reveal_strlit("CapsLock");
    assert("CapsLock"@[0] != 'm');
    reveal_strlit("F1");
    assert("F1"@[0] != 'm');
    reveal_strlit("F2");
    assert("F2"@[0] != 'm');
    reveal_strlit("F3");
    assert("F3"@[0] != 'm');
    reveal_strlit("F4");
    assert("F4"@[0] != 'm');
    reveal_strlit("F5");
    assert("F5"@[0] != 'm');
    reveal_strlit("F6");
    assert("F6"@[0] != 'm');
    reveal_strlit("F7");
    assert("F7"@[0] != 'm');
    reveal_strlit("F8");
    assert("F8"@[0] != 'm');
    reveal_strlit("F9");
    assert("F9"@[0] != 'm');
    reveal_strlit("F10");
    assert("F10"@[0] != 'm');
    reveal_strlit("NumLock");
    assert("NumLock"@[0] != 'm');
    reveal_strlit("ScrollLock");
    assert("ScrollLock"@[0] != 'm');
    reveal_strlit("Numpad7");
    assert("Numpad7"@[0] != 'm');
    reveal_strlit("Numpad8");
    assert("Numpad8"@[0] != 'm');
    reveal_strlit("Numpad9");
    assert("Numpad9"@[0] != 'm');
    reveal_strlit("NumpadSubtract");
    assert("NumpadSubtract"@[0] != 'm');
    reveal_strlit("Numpad4");
    assert("Numpad4"@[0] != 'm');
    reveal_strlit("Numpad5");
    assert("Numpad5"@[0] != 'm');
    reveal_strlit("Numpad6");
    assert("Numpad6"@[0] != 'm');
    reveal_strlit("NumpadAdd");
    assert("NumpadAdd"@[0] != 'm');
    reveal_strlit("Numpad1");
    assert("Numpad1"@[0] != 'm');
    reveal_strlit("Numpad2");
    assert("Numpad2"@[0] != 'm');
    reveal_strlit("Numpad3");
    assert("Numpad3"@[0] != 'm');
    reveal_strlit("Numpad0");
    assert("Numpad0"@[0] != 'm');
    reveal_strlit("NumpadDecimal");
    assert("NumpadDecimal"@[0] != 'm');
    reveal_strlit("IntlBackslash");
    assert("IntlBackslash"@[0] != 'm');
    reveal_strlit("F11");
    assert("F11"@[0] != 'm');
    reveal_strlit("F12");
    assert("F12"@[0] != 'm');
    reveal_strlit("IntlRo");
    assert("IntlRo"@[0] != 'm');
    reveal_strlit("Convert");
    assert("Convert"@[0] != 'm');
    reveal_strlit("KanaMode");
    assert("KanaMode"@[0] != 'm');
    reveal_strlit("NonConvert");
    assert("NonConvert"@[0] != 'm');
    reveal_strlit("NumpadEnter");
    assert("NumpadEnter"@[0] != 'm');
    reveal_strlit("ControlRight");
    assert("ControlRight"@[0] != 'm');
    reveal_strlit("NumpadDivide");
    assert("NumpadDivide"@[0] != 'm');
    reveal_strlit("PrintScreen");
    assert("PrintScreen"@[0] != 'm');
    reveal_strlit("AltRight");
    assert("AltRight"@[0] != 'm');
    reveal_strlit("Home");
    assert("Home"@[0] != 'm');
    reveal_strlit("ArrowUp");
    assert("ArrowUp"@[0] != 'm');
    reveal_strlit("PageUp");
    assert("PageUp"@[0] != 'm');
    reveal_strlit("ArrowLeft");
    assert("ArrowLeft"@[0] != 'm');
    reveal_strlit("ArrowRight");
    assert("ArrowRight"@[0] != 'm');
    reveal_strlit("End");
    assert("End"@[0] != 'm');
    reveal_strlit("ArrowDown");
    assert("ArrowDown"@[0] != 'm');
    reveal_strlit("PageDown");
    assert("PageDown"@[0] != 'm');
    reveal_strlit("Insert");
    assert("Insert"@[0] != 'm');
    reveal_strlit("Delete");
    assert("Delete"@[0] != 'm');
    reveal_strlit("Pause");
    assert("Pause"@[0] != 'm');
    reveal_strlit("SuperLeft");
    assert("SuperLeft"@[0] != 'm');
    reveal_strlit("SuperRight");
    assert("SuperRight"@[0] != 'm');
    reveal_strlit("ContextMenu");
    assert("ContextMenu"@[0] != 'm');
    reveal_strlit("Help");
    assert("Help"@[0] != 'm');
    reveal_strlit("Lang1");
    assert("Lang1"@[0] != 'm');
    reveal_strlit("Lang2");
    assert("Lang2"@[0] != 'm');
    reveal_strlit("Lang3");
    assert("Lang3"@[0] != 'm');
    reveal_strlit("Lang4");
    assert("Lang4"@[0] != 'm');
    reveal_strlit("Lang5");
    assert("Lang5"@[0] != 'm');
    reveal_strlit("NumpadComma");
    assert("NumpadComma"@[0] != 'm');
    reveal_strlit("NumpadEqual");
    assert("NumpadEqual"@[0] != 'm');
}

} // verus!
