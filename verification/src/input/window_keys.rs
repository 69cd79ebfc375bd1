//! Keys and buttons as the window reports them, turned into evdev
//! scancodes and wire buttons, and key chords as the hotkey dialog writes
//! them.

use vstd::prelude::*;
use vstd::string::StrSliceExecFns;
use crate::input::key_names::{named_code, named_key_code};
use crate::text::str_eq;

verus! {

/// A key by its place on the keyboard, as the window reports it.
#[derive(Debug, Clone, PartialEq, Eq)]
pub enum PhysicalKey {
    /// The W3C `code` name of the key, such as `KeyA`.
    Code(String),
    /// A raw XKB keycode the window could not name.
    Xkb(u32),
    Unidentified,
}

/// A key by what it means, as the window reports it.
#[derive(Debug, Clone, PartialEq, Eq)]
pub enum LogicalKey {
    /// The text the key types.
    Character(String),
    /// The name of a key that types nothing, such as `Enter`.
    Named(String),
    Unidentified,
}

/// The modifier keys held.
#[derive(Debug, Clone, Copy, PartialEq, Eq, Structural)]
pub struct Modifiers {
    pub control: bool,
    pub alt: bool,
    pub shift: bool,
    pub logo: bool,
}

/// A mouse button, as the window reports it.
#[derive(Debug, Clone, Copy, PartialEq, Eq, Structural)]
pub enum PointerButton {
    Left,
    Right,
    Middle,
    Back,
    Forward,
    Other(u16),
}

/// Scancodes of the physical key codes that the key-name table does not list.
pub open spec fn extra_code_scancode(n: Seq<char>) -> Option<u16> {
    if n.len() == 3 {
        if n == "F13"@ {
            Some(183u16)
        } else if n == "F14"@ {
            Some(184u16)
        } else if n == "F15"@ {
            Some(185u16)
        } else if n == "F16"@ {
            Some(186u16)
        } else if n == "F17"@ {
            Some(187u16)
        } else if n == "F18"@ {
            Some(188u16)
        } else if n == "F19"@ {
            Some(189u16)
        } else if n == "F20"@ {
            Some(190u16)
        } else if n == "F21"@ {
            Some(191u16)
        } else if n == "F22"@ {
            Some(192u16)
        } else if n == "F23"@ {
            Some(193u16)
        } else if n == "F24"@ {
            Some(194u16)
        } else {
            None
        }
    } else if n.len() == 7 {
        if n == "IntlYen"@ {
            Some(124u16)
        } else {
            None
        }
    } else if n.len() == 9 {
        if n == "MediaStop"@ {
            Some(166u16)
        } else {
            None
        }
    } else if n.len() == 13 {
        if n == "AudioVolumeUp"@ {
            Some(115u16)
        } else {
            None
        }
    } else if n.len() == 14 {
        if n == "MediaPlayPause"@ {
            Some(164u16)
        } else if n == "MediaTrackNext"@ {
            Some(163u16)
        } else {
            None
        }
    } else if n.len() == 15 {
        if n == "AudioVolumeDown"@ {
            Some(114u16)
        } else if n == "AudioVolumeMute"@ {
            Some(113u16)
        } else {
            None
        }
    } else if n.len() == 18 {
        if n == "MediaTrackPrevious"@ {
            Some(165u16)
        } else {
            None
        }
    } else {
        None
    }
}

fn extra_code(name: &str) -> (r: Option<u16>)
    ensures
        r == extra_code_scancode(name@),
{
    let len = name.unicode_len();
    if len == 3 {
        if str_eq(name, "F13") {
            Some(183)
        } else if str_eq(name, "F14") {
            Some(184)
        } else if str_eq(name, "F15") {
            Some(185)
        } else if str_eq(name, "F16") {
            Some(186)
        } else if str_eq(name, "F17") {
            Some(187)
        } else if str_eq(name, "F18") {
            Some(188)
        } else if str_eq(name, "F19") {
            Some(189)
        } else if str_eq(name, "F20") {
            Some(190)
        } else if str_eq(name, "F21") {
            Some(191)
        } else if str_eq(name, "F22") {
            Some(192)
        } else if str_eq(name, "F23") {
            Some(193)
        } else if str_eq(name, "F24") {
            Some(194)
        } else {
            None
        }
    } else if len == 7 {
        if str_eq(name, "IntlYen") {
            Some(124)
        } else {
            None
        }
    } else if len == 9 {
        if str_eq(name, "MediaStop") {
            Some(166)
        } else {
            None
        }
    } else if len == 13 {
        if str_eq(name, "AudioVolumeUp") {
            Some(115)
        } else {
            None
        }
    } else if len == 14 {
        if str_eq(name, "MediaPlayPause") {
            Some(164)
        } else if str_eq(name, "MediaTrackNext") {
            Some(163)
        } else {
            None
        }
    } else if len == 15 {
        if str_eq(name, "AudioVolumeDown") {
            Some(114)
        } else if str_eq(name, "AudioVolumeMute") {
            Some(113)
        } else {
            None
        }
    } else if len == 18 {
        if str_eq(name, "MediaTrackPrevious") {
            Some(165)
        } else {
            None
        }
    } else {
        None
    }
}

/// The scancode a named logical key falls back on when its physical key is unknown; for modifiers, the left one.
pub open spec fn named_logical_scancode(n: Seq<char>) -> Option<u16> {
    if n.len() == 2 {
        if n == "F1"@ {
            Some(59u16)
        } else if n == "F2"@ {
            Some(60u16)
        } else if n == "F3"@ {
            Some(61u16)
        } else if n == "F4"@ {
            Some(62u16)
        } else if n == "F5"@ {
            Some(63u16)
        } else if n == "F6"@ {
            Some(64u16)
        } else if n == "F7"@ {
            Some(65u16)
        } else if n == "F8"@ {
            Some(66u16)
        } else if n == "F9"@ {
            Some(67u16)
        } else {
            None
        }
    } else if n.len() == 3 {
        if n == "Tab"@ {
            Some(15u16)
        } else if n == "End"@ {
            Some(107u16)
        } else if n == "Alt"@ {
            Some(56u16)
        } else if n == "F10"@ {
            Some(68u16)
        } else if n == "F11"@ {
            Some(87u16)
        } else if n == "F12"@ {
            Some(88u16)
        } else if n == "F13"@ {
            Some(183u16)
        } else if n == "F14"@ {
            Some(184u16)
        } else if n == "F15"@ {
            Some(185u16)
        } else if n == "F16"@ {
            Some(186u16)
        } else if n == "F17"@ {
            Some(187u16)
        } else if n == "F18"@ {
            Some(188u16)
        } else if n == "F19"@ {
            Some(189u16)
        } else if n == "F20"@ {
            Some(190u16)
        } else if n == "F21"@ {
            Some(191u16)
        } else if n == "F22"@ {
            Some(192u16)
        } else if n == "F23"@ {
            Some(193u16)
        } else if n == "F24"@ {
            Some(194u16)
        } else {
            None
        }
    } else if n.len() == 4 {
        if n == "Home"@ {
            Some(102u16)
        } else if n == "Help"@ {
            Some(138u16)
        } else {
            None
        }
    } else if n.len() == 5 {
        if n == "Enter"@ {
            Some(28u16)
        } else if n == "Space"@ {
            Some(57u16)
        } else if n == "Pause"@ {
            Some(119u16)
        } else if n == "Shift"@ {
            Some(42u16)
        } else if n == "Super"@ {
            Some(125u16)
        } else {
            None
        }
    } else if n.len() == 6 {
        if n == "PageUp"@ {
            Some(104u16)
        } else if n == "Delete"@ {
            Some(111u16)
        } else if n == "Insert"@ {
            Some(110u16)
        } else if n == "Escape"@ {
            Some(1u16)
        } else {
            None
        }
    } else if n.len() == 7 {
        if n == "ArrowUp"@ {
            Some(103u16)
        } else if n == "NumLock"@ {
            Some(69u16)
        } else if n == "Control"@ {
            Some(29u16)
        } else if n == "Convert"@ {
            Some(92u16)
        } else {
            None
        }
    } else if n.len() == 8 {
        if n == "PageDown"@ {
            Some(109u16)
        } else if n == "CapsLock"@ {
            Some(58u16)
        } else if n == "AltGraph"@ {
            Some(100u16)
        } else if n == "KanaMode"@ {
            Some(93u16)
        } else if n == "Hiragana"@ {
            Some(91u16)
        } else if n == "Katakana"@ {
            Some(90u16)
        } else {
            None
        }
    } else if n.len() == 9 {
        if n == "ArrowDown"@ {
            Some(108u16)
        } else if n == "ArrowLeft"@ {
            Some(105u16)
        } else if n == "Backspace"@ {
            Some(14u16)
        } else if n == "HanjaMode"@ {
            Some(123u16)
        } else if n == "JunjaMode"@ {
            Some(129u16)
        } else if n == "KanjiMode"@ {
            Some(93u16)
        } else {
            None
        }
    } else if n.len() == 10 {
        if n == "ArrowRight"@ {
            Some(106u16)
        } else if n == "ScrollLock"@ {
            Some(70u16)
        } else if n == "NonConvert"@ {
            Some(94u16)
        } else if n == "HangulMode"@ {
            Some(122u16)
        } else {
            None
        }
    } else if n.len() == 11 {
        if n == "PrintScreen"@ {
            Some(99u16)
        } else if n == "ContextMenu"@ {
            Some(127u16)
        } else {
            None
        }
    } else if n.len() == 16 {
        if n == "HiraganaKatakana"@ {
            Some(93u16)
        } else {
            None
        }
    } else {
        None
    }
}

fn named_logical_code(name: &str) -> (r: Option<u16>)
    ensures
        r == named_logical_scancode(name@),
{
    let len = name.unicode_len();
    if len == 2 {
        if str_eq(name, "F1") {
            Some(59)
        } else if str_eq(name, "F2") {
            Some(60)
        } else if str_eq(name, "F3") {
            Some(61)
        } else if str_eq(name, "F4") {
            Some(62)
        } else if str_eq(name, "F5") {
            Some(63)
        } else if str_eq(name, "F6") {
            Some(64)
        } else if str_eq(name, "F7") {
            Some(65)
        } else if str_eq(name, "F8") {
            Some(66)
        } else if str_eq(name, "F9") {
            Some(67)
        } else {
            None
        }
    } else if len == 3 {
        if str_eq(name, "Tab") {
            Some(15)
        } else if str_eq(name, "End") {
            Some(107)
        } else if str_eq(name, "Alt") {
            Some(56)
        } else if str_eq(name, "F10") {
            Some(68)
        } else if str_eq(name, "F11") {
            Some(87)
        } else if str_eq(name, "F12") {
            Some(88)
        } else if str_eq(name, "F13") {
            Some(183)
        } else if str_eq(name, "F14") {
            Some(184)
        } else if str_eq(name, "F15") {
            Some(185)
        } else if str_eq(name, "F16") {
            Some(186)
        } else if str_eq(name, "F17") {
            Some(187)
        } else if str_eq(name, "F18") {
            Some(188)
        } else if str_eq(name, "F19") {
            Some(189)
        } else if str_eq(name, "F20") {
            Some(190)
        } else if str_eq(name, "F21") {
            Some(191)
        } else if str_eq(name, "F22") {
            Some(192)
        } else if str_eq(name, "F23") {
            Some(193)
        } else if str_eq(name, "F24") {
            Some(194)
        } else {
            None
        }
    } else if len == 4 {
        if str_eq(name, "Home") {
            Some(102)
        } else if str_eq(name, "Help") {
            Some(138)
        } else {
            None
        }
    } else if len == 5 {
        if str_eq(name, "Enter") {
            Some(28)
        } else if str_eq(name, "Space") {
            Some(57)
        } else if str_eq(name, "Pause") {
            Some(119)
        } else if str_eq(name, "Shift") {
            Some(42)
        } else if str_eq(name, "Super") {
            Some(125)
        } else {
            None
        }
    } else if len == 6 {
        if str_eq(name, "PageUp") {
            Some(104)
        } else if str_eq(name, "Delete") {
            Some(111)
        } else if str_eq(name, "Insert") {
            Some(110)
        } else if str_eq(name, "Escape") {
            Some(1)
        } else {
            None
        }
    } else if len == 7 {
        if str_eq(name, "ArrowUp") {
            Some(103)
        } else if str_eq(name, "NumLock") {
            Some(69)
        } else if str_eq(name, "Control") {
            Some(29)
        } else if str_eq(name, "Convert") {
            Some(92)
        } else {
            None
        }
    } else if len == 8 {
        if str_eq(name, "PageDown") {
            Some(109)
        } else if str_eq(name, "CapsLock") {
            Some(58)
        } else if str_eq(name, "AltGraph") {
            Some(100)
        } else if str_eq(name, "KanaMode") {
            Some(93)
        } else if str_eq(name, "Hiragana") {
            Some(91)
        } else if str_eq(name, "Katakana") {
            Some(90)
        } else {
            None
        }
    } else if len == 9 {
        if str_eq(name, "ArrowDown") {
            Some(108)
        } else if str_eq(name, "ArrowLeft") {
            Some(105)
        } else if str_eq(name, "Backspace") {
            Some(14)
        } else if str_eq(name, "HanjaMode") {
            Some(123)
        } else if str_eq(name, "JunjaMode") {
            Some(129)
        } else if str_eq(name, "KanjiMode") {
            Some(93)
        } else {
            None
        }
    } else if len == 10 {
        if str_eq(name, "ArrowRight") {
            Some(106)
        } else if str_eq(name, "ScrollLock") {
            Some(70)
        } else if str_eq(name, "NonConvert") {
            Some(94)
        } else if str_eq(name, "HangulMode") {
            Some(122)
        } else {
            None
        }
    } else if len == 11 {
        if str_eq(name, "PrintScreen") {
            Some(99)
        } else if str_eq(name, "ContextMenu") {
            Some(127)
        } else {
            None
        }
    } else if len == 16 {
        if str_eq(name, "HiraganaKatakana") {
            Some(93)
        } else {
            None
        }
    } else {
        None
    }
}

/// How a named key is written in a hotkey chord.
pub open spec fn named_key_label(n: Seq<char>) -> Option<Seq<char>> {
    if n.len() == 2 {
        if n == "F1"@ {
            Some("F1"@)
        } else if n == "F2"@ {
            Some("F2"@)
        } else if n == "F3"@ {
            Some("F3"@)
        } else if n == "F4"@ {
            Some("F4"@)
        } else if n == "F5"@ {
            Some("F5"@)
        } else if n == "F6"@ {
            Some("F6"@)
        } else if n == "F7"@ {
            Some("F7"@)
        } else if n == "F8"@ {
            Some("F8"@)
        } else if n == "F9"@ {
            Some("F9"@)
        } else {
            None
        }
    } else if n.len() == 3 {
        if n == "Tab"@ {
            Some("Tab"@)
        } else if n == "End"@ {
            Some("End"@)
        } else if n == "F10"@ {
            Some("F10"@)
        } else if n == "F11"@ {
            Some("F11"@)
        } else if n == "F12"@ {
            Some("F12"@)
        } else {
            None
        }
    } else if n.len() == 4 {
        if n == "Home"@ {
            Some("Home"@)
        } else {
            None
        }
    } else if n.len() == 5 {
        if n == "Space"@ {
            Some("Space"@)
        } else if n == "Enter"@ {
            Some("Enter"@)
        } else if n == "Pause"@ {
            Some("Pause"@)
        } else {
            None
        }
    } else if n.len() == 6 {
        if n == "Delete"@ {
            Some("Delete"@)
        } else if n == "Insert"@ {
            Some("Insert"@)
        } else if n == "PageUp"@ {
            Some("Page Up"@)
        } else {
            None
        }
    } else if n.len() == 7 {
        if n == "ArrowUp"@ {
            Some("Up"@)
        } else if n == "NumLock"@ {
            Some("Num Lock"@)
        } else {
            None
        }
    } else if n.len() == 8 {
        if n == "PageDown"@ {
            Some("Page Down"@)
        } else if n == "CapsLock"@ {
            Some("Caps Lock"@)
        } else {
            None
        }
    } else if n.len() == 9 {
        if n == "Backspace"@ {
            Some("Backspace"@)
        } else if n == "ArrowLeft"@ {
            Some("Left"@)
        } else if n == "ArrowDown"@ {
            Some("Down"@)
        } else {
            None
        }
    } else if n.len() == 10 {
        if n == "ArrowRight"@ {
            Some("Right"@)
        } else if n == "ScrollLock"@ {
            Some("Scroll Lock"@)
        } else {
            None
        }
    } else if n.len() == 11 {
        if n == "PrintScreen"@ {
            Some("Print Screen"@)
        } else {
            None
        }
    } else {
        None
    }
}

/// The scancode of the key that types a character on a US layout.
pub open spec fn char_scancode(c: char) -> Option<u16> {
    if c == 'a' {
        Some(30u16)
    } else if c == 'A' {
        Some(30u16)
    } else if c == 'b' {
        Some(48u16)
    } else if c == 'B' {
        Some(48u16)
    } else if c == 'c' {
        Some(46u16)
    } else if c == 'C' {
        Some(46u16)
    } else if c == 'd' {
        Some(32u16)
    } else if c == 'D' {
        Some(32u16)
    } else if c == 'e' {
        Some(18u16)
    } else if c == 'E' {
        Some(18u16)
    } else if c == 'f' {
        Some(33u16)
    } else if c == 'F' {
        Some(33u16)
    } else if c == 'g' {
        Some(34u16)
    } else if c == 'G' {
        Some(34u16)
    } else if c == 'h' {
        Some(35u16)
    } else if c == 'H' {
        Some(35u16)
    } else if c == 'i' {
        Some(23u16)
    } else if c == 'I' {
        Some(23u16)
    } else if c == 'j' {
        Some(36u16)
    } else if c == 'J' {
        Some(36u16)
    } else if c == 'k' {
        Some(37u16)
    } else if c == 'K' {
        Some(37u16)
    } else if c == 'l' {
        Some(38u16)
    } else if c == 'L' {
        Some(38u16)
    } else if c == 'm' {
        Some(50u16)
    } else if c == 'M' {
        Some(50u16)
    } else if c == 'n' {
        Some(49u16)
    } else if c == 'N' {
        Some(49u16)
    } else if c == 'o' {
        Some(24u16)
    } else if c == 'O' {
        Some(24u16)
    } else if c == 'p' {
        Some(25u16)
    } else if c == 'P' {
        Some(25u16)
    } else if c == 'q' {
        Some(16u16)
    } else if c == 'Q' {
        Some(16u16)
    } else if c == 'r' {
        Some(19u16)
    } else if c == 'R' {
        Some(19u16)
    } else if c == 's' {
        Some(31u16)
    } else if c == 'S' {
        Some(31u16)
    } else if c == 't' {
        Some(20u16)
    } else if c == 'T' {
        Some(20u16)
    } else if c == 'u' {
        Some(22u16)
    } else if c == 'U' {
        Some(22u16)
    } else if c == 'v' {
        Some(47u16)
    } else if c == 'V' {
        Some(47u16)
    } else if c == 'w' {
        Some(17u16)
    } else if c == 'W' {
        Some(17u16)
    } else if c == 'x' {
        Some(45u16)
    } else if c == 'X' {
        Some(45u16)
    } else if c == 'y' {
        Some(21u16)
    } else if c == 'Y' {
        Some(21u16)
    } else if c == 'z' {
        Some(44u16)
    } else if c == 'Z' {
        Some(44u16)
    } else if c == '1' {
        Some(2u16)
    } else if c == '!' {
        Some(2u16)
    } else if c == '2' {
        Some(3u16)
    } else if c == '@' {
        Some(3u16)
    } else if c == '3' {
        Some(4u16)
    } else if c == '#' {
        Some(4u16)
    } else if c == '4' {
        Some(5u16)
    } else if c == '$' {
        Some(5u16)
    } else if c == '5' {
        Some(6u16)
    } else if c == '%' {
        Some(6u16)
    } else if c == '6' {
        Some(7u16)
    } else if c == '^' {
        Some(7u16)
    } else if c == '7' {
        Some(8u16)
    } else if c == '&' {
        Some(8u16)
    } else if c == '8' {
        Some(9u16)
    } else if c == '*' {
        Some(9u16)
    } else if c == '9' {
        Some(10u16)
    } else if c == '(' {
        Some(10u16)
    } else if c == '0' {
        Some(11u16)
    } else if c == ')' {
        Some(11u16)
    } else if c == '-' {
        Some(12u16)
    } else if c == '_' {
        Some(12u16)
    } else if c == '=' {
        Some(13u16)
    } else if c == '+' {
        Some(13u16)
    } else if c == '[' {
        Some(26u16)
    } else if c == '{' {
        Some(26u16)
    } else if c == ']' {
        Some(27u16)
    } else if c == '}' {
        Some(27u16)
    } else if c == '\\' {
        Some(43u16)
    } else if c == '|' {
        Some(43u16)
    } else if c == ';' {
        Some(39u16)
    } else if c == ':' {
        Some(39u16)
    } else if c == '\'' {
        Some(40u16)
    } else if c == '"' {
        Some(40u16)
    } else if c == '`' {
        Some(41u16)
    } else if c == '~' {
        Some(41u16)
    } else if c == ',' {
        Some(51u16)
    } else if c == '<' {
        Some(51u16)
    } else if c == '.' {
        Some(52u16)
    } else if c == '>' {
        Some(52u16)
    } else if c == '/' {
        Some(53u16)
    } else if c == '?' {
        Some(53u16)
    } else if c == ' ' {
        Some(57u16)
    } else {
        None
    }
}

/// The scancode of the key that types a character on a US layout.
pub fn char_to_evdev(c: char) -> (r: Option<u16>)
    ensures
        r == char_scancode(c),
{
    if c == 'a' {
        Some(30)
    } else if c == 'A' {
        Some(30)
    } else if c == 'b' {
        Some(48)
    } else if c == 'B' {
        Some(48)
    } else if c == 'c' {
        Some(46)
    } else if c == 'C' {
        Some(46)
    } else if c == 'd' {
        Some(32)
    } else if c == 'D' {
        Some(32)
    } else if c == 'e' {
        Some(18)
    } else if c == 'E' {
        Some(18)
    } else if c == 'f' {
        Some(33)
    } else if c == 'F' {
        Some(33)
    } else if c == 'g' {
        Some(34)
    } else if c == 'G' {
        Some(34)
    } else if c == 'h' {
        Some(35)
    } else if c == 'H' {
        Some(35)
    } else if c == 'i' {
        Some(23)
    } else if c == 'I' {
        Some(23)
    } else if c == 'j' {
        Some(36)
    } else if c == 'J' {
        Some(36)
    } else if c == 'k' {
        Some(37)
    } else if c == 'K' {
        Some(37)
    } else if c == 'l' {
        Some(38)
    } else if c == 'L' {
        Some(38)
    } else if c == 'm' {
        Some(50)
    } else if c == 'M' {
        Some(50)
    } else if c == 'n' {
        Some(49)
    } else if c == 'N' {
        Some(49)
    } else if c == 'o' {
        Some(24)
    } else if c == 'O' {
        Some(24)
    } else if c == 'p' {
        Some(25)
    } else if c == 'P' {
        Some(25)
    } else if c == 'q' {
        Some(16)
    } else if c == 'Q' {
        Some(16)
    } else if c == 'r' {
        Some(19)
    } else if c == 'R' {
        Some(19)
    } else if c == 's' {
        Some(31)
    } else if c == 'S' {
        Some(31)
    } else if c == 't' {
        Some(20)
    } else if c == 'T' {
        Some(20)
    } else if c == 'u' {
        Some(22)
    } else if c == 'U' {
        Some(22)
    } else if c == 'v' {
        Some(47)
    } else if c == 'V' {
        Some(47)
    } else if c == 'w' {
        Some(17)
    } else if c == 'W' {
        Some(17)
    } else if c == 'x' {
        Some(45)
    } else if c == 'X' {
        Some(45)
    } else if c == 'y' {
        Some(21)
    } else if c == 'Y' {
        Some(21)
    } else if c == 'z' {
        Some(44)
    } else if c == 'Z' {
        Some(44)
    } else if c == '1' {
        Some(2)
    } else if c == '!' {
        Some(2)
    } else if c == '2' {
        Some(3)
    } else if c == '@' {
        Some(3)
    } else if c == '3' {
        Some(4)
    } else if c == '#' {
        Some(4)
    } else if c == '4' {
        Some(5)
    } else if c == '$' {
        Some(5)
    } else if c == '5' {
        Some(6)
    } else if c == '%' {
        Some(6)
    } else if c == '6' {
        Some(7)
    } else if c == '^' {
        Some(7)
    } else if c == '7' {
        Some(8)
    } else if c == '&' {
        Some(8)
    } else if c == '8' {
        Some(9)
    } else if c == '*' {
        Some(9)
    } else if c == '9' {
        Some(10)
    } else if c == '(' {
        Some(10)
    } else if c == '0' {
        Some(11)
    } else if c == ')' {
        Some(11)
    } else if c == '-' {
        Some(12)
    } else if c == '_' {
        Some(12)
    } else if c == '=' {
        Some(13)
    } else if c == '+' {
        Some(13)
    } else if c == '[' {
        Some(26)
    } else if c == '{' {
        Some(26)
    } else if c == ']' {
        Some(27)
    } else if c == '}' {
        Some(27)
    } else if c == '\\' {
        Some(43)
    } else if c == '|' {
        Some(43)
    } else if c == ';' {
        Some(39)
    } else if c == ':' {
        Some(39)
    } else if c == '\'' {
        Some(40)
    } else if c == '"' {
        Some(40)
    } else if c == '`' {
        Some(41)
    } else if c == '~' {
        Some(41)
    } else if c == ',' {
        Some(51)
    } else if c == '<' {
        Some(51)
    } else if c == '.' {
        Some(52)
    } else if c == '>' {
        Some(52)
    } else if c == '/' {
        Some(53)
    } else if c == '?' {
        Some(53)
    } else if c == ' ' {
        Some(57)
    } else {
        None
    }
}

fn named_label(name: &str) -> (r: Option<&'static str>)
    ensures
        match r {
            Some(t) => named_key_label(name@) == Some(t@),
            None => named_key_label(name@) is None,
        },
{
    let len = name.unicode_len();
    if len == 2 {
        if str_eq(name, "F1") {
            Some("F1")
        } else if str_eq(name, "F2") {
            Some("F2")
        } else if str_eq(name, "F3") {
            Some("F3")
        } else if str_eq(name, "F4") {
            Some("F4")
        } else if str_eq(name, "F5") {
            Some("F5")
        } else if str_eq(name, "F6") {
            Some("F6")
        } else if str_eq(name, "F7") {
            Some("F7")
        } else if str_eq(name, "F8") {
            Some("F8")
        } else if str_eq(name, "F9") {
            Some("F9")
        } else {
            None
        }
    } else if len == 3 {
        if str_eq(name, "Tab") {
            Some("Tab")
        } else if str_eq(name, "End") {
            Some("End")
        } else if str_eq(name, "F10") {
            Some("F10")
        } else if str_eq(name, "F11") {
            Some("F11")
        } else if str_eq(name, "F12") {
            Some("F12")
        } else {
            None
        }
    } else if len == 4 {
        if str_eq(name, "Home") {
            Some("Home")
        } else {
            None
        }
    } else if len == 5 {
        if str_eq(name, "Space") {
            Some("Space")
        } else if str_eq(name, "Enter") {
            Some("Enter")
        } else if str_eq(name, "Pause") {
            Some("Pause")
        } else {
            None
        }
    } else if len == 6 {
        if str_eq(name, "Delete") {
            Some("Delete")
        } else if str_eq(name, "Insert") {
            Some("Insert")
        } else if str_eq(name, "PageUp") {
            Some("Page Up")
        } else {
            None
        }
    } else if len == 7 {
        if str_eq(name, "ArrowUp") {
            Some("Up")
        } else if str_eq(name, "NumLock") {
            Some("Num Lock")
        } else {
            None
        }
    } else if len == 8 {
        if str_eq(name, "PageDown") {
            Some("Page Down")
        } else if str_eq(name, "CapsLock") {
            Some("Caps Lock")
        } else {
            None
        }
    } else if len == 9 {
        if str_eq(name, "Backspace") {
            Some("Backspace")
        } else if str_eq(name, "ArrowLeft") {
            Some("Left")
        } else if str_eq(name, "ArrowDown") {
            Some("Down")
        } else {
            None
        }
    } else if len == 10 {
        if str_eq(name, "ArrowRight") {
            Some("Right")
        } else if str_eq(name, "ScrollLock") {
            Some("Scroll Lock")
        } else {
            None
        }
    } else if len == 11 {
        if str_eq(name, "PrintScreen") {
            Some("Print Screen")
        } else {
            None
        }
    } else {
        None
    }
}

/// The scancode of a physical key by its `code` name: the key-name table's,
/// but for `Escape`, which is not taken from here, and for the codes that
/// table does not list.
pub open spec fn code_scancode(code: Seq<char>) -> Option<u16> {
    if code == "Escape"@ {
        None
    } else {
        match extra_code_scancode(code) {
            Some(c) => Some(c),
            None => named_key_code(code),
        }
    }
}

/// The evdev scancode of a physical key, by its `code` name.
pub fn code_to_evdev(code: &str) -> (r: Option<u16>)
    ensures
        r == code_scancode(code@),
{
    if str_eq(code, "Escape") {
        return None;
    }
    match extra_code(code) {
        Some(c) => Some(c),
        None => named_code(code),
    }
}

/// The scancode of a physical key: by its code, or its raw XKB keycode
/// truncated to 16 bits.
pub open spec fn physical_scancode(k: PhysicalKey) -> Option<u16> {
    match k {
        PhysicalKey::Code(c) => code_scancode(c@),
        PhysicalKey::Xkb(x) => Some((x % 0x10000) as u16),
        PhysicalKey::Unidentified => None,
    }
}

/// The evdev scancode of a physical key, which does not depend on the
/// keyboard layout and tells left and right modifiers apart.
pub fn physical_key_to_evdev(k: &PhysicalKey) -> (r: Option<u16>)
    ensures
        r == physical_scancode(*k),
{
    match k {
        PhysicalKey::Code(c) => code_to_evdev(c.as_str()),
        PhysicalKey::Xkb(x) => Some((*x % 0x10000) as u16),
        PhysicalKey::Unidentified => None,
    }
}

/// The scancode a named logical key falls back on.
pub fn named_key_to_evdev(name: &str) -> (r: Option<u16>)
    ensures
        r == named_logical_scancode(name@),
{
    named_logical_code(name)
}

/// The scancode a logical key falls back on where its physical key is
/// unknown: that of its first character, or of its name.
pub open spec fn logical_scancode(k: LogicalKey) -> Option<u16> {
    match k {
        LogicalKey::Character(s) => if s@.len() > 0 {
            char_scancode(s@[0])
        } else {
            None
        },
        LogicalKey::Named(n) => named_logical_scancode(n@),
        LogicalKey::Unidentified => None,
    }
}

/// The scancode of a logical key, used where the physical key is unknown.
pub fn key_to_evdev(k: &LogicalKey) -> (r: Option<u16>)
    ensures
        r == logical_scancode(*k),
{
    match k {
        LogicalKey::Character(s) => if s.as_str().unicode_len() > 0 {
            char_to_evdev(s.as_str().get_char(0))
        } else {
            None
        },
        LogicalKey::Named(n) => named_key_to_evdev(n.as_str()),
        LogicalKey::Unidentified => None,
    }
}

/// The wire number of a mouse button: 1 left, 2 middle, 3 right, 8 back,
/// 9 forward, and others by their own number, at most 255.
pub open spec fn button_number(b: PointerButton) -> u8 {
    match b {
        PointerButton::Left => 1,
        PointerButton::Right => 3,
        PointerButton::Middle => 2,
        PointerButton::Back => 8,
        PointerButton::Forward => 9,
        PointerButton::Other(n) => if n <= 255 { n as u8 } else { 255 },
    }
}

/// The wire number of a mouse button.
pub fn map_window_button(b: PointerButton) -> (n: u8)
    ensures
        n == button_number(b),
{
    match b {
        PointerButton::Left => 1,
        PointerButton::Right => 3,
        PointerButton::Middle => 2,
        PointerButton::Back => 8,
        PointerButton::Forward => 9,
        PointerButton::Other(n) => if n <= 255 { n as u8 } else { 255 },
    }
}

/// Upper case as `str::to_uppercase` gives it.
pub uninterp spec fn uppercase(s: Seq<char>) -> Seq<char>;

/// `str::to_uppercase`; its result is named by `uppercase`.
#[verifier::external_body]
fn to_uppercase(s: &str) -> (r: String)
    ensures
        r@ == uppercase(s@),
{
    s.to_uppercase()
}

/// The modifiers of a chord, each followed by `+`, in the order Ctrl, Alt,
/// Shift, Super.
pub open spec fn modifier_prefix(m: Modifiers) -> Seq<char> {
    (if m.control { "Ctrl+"@ } else { Seq::<char>::empty() })
        + (if m.alt { "Alt+"@ } else { Seq::<char>::empty() })
        + (if m.shift { "Shift+"@ } else { Seq::<char>::empty() })
        + (if m.logo { "Super+"@ } else { Seq::<char>::empty() })
}

/// How a chord's key is written: a named key by its label, a character in
/// upper case; modifiers alone, Escape and unknown keys form no chord.
pub open spec fn chord_key_text(k: LogicalKey) -> Option<Seq<char>> {
    match k {
        LogicalKey::Named(n) => named_key_label(n@),
        LogicalKey::Character(c) => Some(uppercase(c@)),
        LogicalKey::Unidentified => None,
    }
}

/// The chord a key press with modifiers forms, as the hotkey setting
/// writes it: the modifiers, then the key, joined by `+`.
pub open spec fn chord_text(k: LogicalKey, m: Modifiers) -> Option<Seq<char>> {
    match chord_key_text(k) {
        Some(t) => Some(modifier_prefix(m) + t),
        None => None,
    }
}

/// The hotkey chord that a key press forms, if it forms one.
pub fn format_chord(key: &LogicalKey, modifiers: Modifiers) -> (r: Option<String>)
    ensures
        match r {
            Some(s) => chord_text(*key, modifiers) == Some(s@),
            None => chord_text(*key, modifiers) is None,
        },
{
    let key_str: String = match key {
        LogicalKey::Named(n) => match named_label(n.as_str()) {
            Some(l) => l.to_string(),
            None => return None,
        },
        LogicalKey::Character(c) => to_uppercase(c.as_str()),
        LogicalKey::Unidentified => return None,
    };
    let mut s = String::new();
    if modifiers.control {
        s.append("Ctrl+");
    }
    if modifiers.alt {
        s.append("Alt+");
    }
    if modifiers.shift {
        s.append("Shift+");
    }
    if modifiers.logo {
        s.append("Super+");
    }
    s.append(key_str.as_str());
    Some(s)
}

} // verus!
