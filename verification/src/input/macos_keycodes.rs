//! Translation between Linux evdev scancodes and macOS virtual key codes.
//!
//! The wire protocol carries evdev scancodes: a macOS server turns them into
//! virtual key codes to inject, and a macOS client turns captured virtual
//! key codes back into evdev scancodes. The mapping follows the physical key
//! positions of a US keyboard; keys with no macOS counterpart have none.

use vstd::prelude::*;

verus! {

/// macOS virtual key codes (the `kVK_*` values of the Carbon key code
/// table) of the keys that the mapping uses.
pub const KVK_ANSI_A: u16 = 0x00;
pub const KVK_ANSI_S: u16 = 0x01;
pub const KVK_ANSI_D: u16 = 0x02;
pub const KVK_ANSI_F: u16 = 0x03;
pub const KVK_ANSI_H: u16 = 0x04;
pub const KVK_ANSI_G: u16 = 0x05;
pub const KVK_ANSI_Z: u16 = 0x06;
pub const KVK_ANSI_X: u16 = 0x07;
pub const KVK_ANSI_C: u16 = 0x08;
pub const KVK_ANSI_V: u16 = 0x09;
pub const KVK_ISO_SECTION: u16 = 0x0A;
pub const KVK_ANSI_B: u16 = 0x0B;
pub const KVK_ANSI_Q: u16 = 0x0C;
pub const KVK_ANSI_W: u16 = 0x0D;
pub const KVK_ANSI_E: u16 = 0x0E;
pub const KVK_ANSI_R: u16 = 0x0F;
pub const KVK_ANSI_Y: u16 = 0x10;
pub const KVK_ANSI_T: u16 = 0x11;
pub const KVK_ANSI_1: u16 = 0x12;
pub const KVK_ANSI_2: u16 = 0x13;
pub const KVK_ANSI_3: u16 = 0x14;
pub const KVK_ANSI_4: u16 = 0x15;
pub const KVK_ANSI_6: u16 = 0x16;
pub const KVK_ANSI_5: u16 = 0x17;
pub const KVK_ANSI_EQUAL: u16 = 0x18;
pub const KVK_ANSI_9: u16 = 0x19;
pub const KVK_ANSI_7: u16 = 0x1A;
pub const KVK_ANSI_MINUS: u16 = 0x1B;
pub const KVK_ANSI_8: u16 = 0x1C;
pub const KVK_ANSI_0: u16 = 0x1D;
pub const KVK_ANSI_RIGHT_BRACKET: u16 = 0x1E;
pub const KVK_ANSI_O: u16 = 0x1F;
pub const KVK_ANSI_U: u16 = 0x20;
pub const KVK_ANSI_LEFT_BRACKET: u16 = 0x21;
pub const KVK_ANSI_I: u16 = 0x22;
pub const KVK_ANSI_P: u16 = 0x23;
pub const KVK_RETURN: u16 = 0x24;
pub const KVK_ANSI_L: u16 = 0x25;
pub const KVK_ANSI_J: u16 = 0x26;
pub const KVK_ANSI_QUOTE: u16 = 0x27;
pub const KVK_ANSI_K: u16 = 0x28;
pub const KVK_ANSI_SEMICOLON: u16 = 0x29;
pub const KVK_ANSI_BACKSLASH: u16 = 0x2A;
pub const KVK_ANSI_COMMA: u16 = 0x2B;
pub const KVK_ANSI_SLASH: u16 = 0x2C;
pub const KVK_ANSI_N: u16 = 0x2D;
pub const KVK_ANSI_M: u16 = 0x2E;
pub const KVK_ANSI_PERIOD: u16 = 0x2F;
pub const KVK_TAB: u16 = 0x30;
pub const KVK_SPACE: u16 = 0x31;
pub const KVK_ANSI_GRAVE: u16 = 0x32;
pub const KVK_DELETE: u16 = 0x33;
pub const KVK_ESCAPE: u16 = 0x35;
pub const KVK_RIGHT_COMMAND: u16 = 0x36;
pub const KVK_COMMAND: u16 = 0x37;
pub const KVK_SHIFT: u16 = 0x38;
pub const KVK_CAPS_LOCK: u16 = 0x39;
pub const KVK_OPTION: u16 = 0x3A;
pub const KVK_CONTROL: u16 = 0x3B;
pub const KVK_RIGHT_SHIFT: u16 = 0x3C;
pub const KVK_RIGHT_OPTION: u16 = 0x3D;
pub const KVK_RIGHT_CONTROL: u16 = 0x3E;
pub const KVK_ANSI_KEYPAD_DECIMAL: u16 = 0x41;
pub const KVK_ANSI_KEYPAD_MULTIPLY: u16 = 0x43;
pub const KVK_ANSI_KEYPAD_PLUS: u16 = 0x45;
pub const KVK_ANSI_KEYPAD_DIVIDE: u16 = 0x4B;
pub const KVK_ANSI_KEYPAD_ENTER: u16 = 0x4C;
pub const KVK_ANSI_KEYPAD_MINUS: u16 = 0x4E;
pub const KVK_ANSI_KEYPAD_EQUAL: u16 = 0x51;
pub const KVK_ANSI_KEYPAD_0: u16 = 0x52;
pub const KVK_ANSI_KEYPAD_1: u16 = 0x53;
pub const KVK_ANSI_KEYPAD_2: u16 = 0x54;
pub const KVK_ANSI_KEYPAD_3: u16 = 0x55;
pub const KVK_ANSI_KEYPAD_4: u16 = 0x56;
pub const KVK_ANSI_KEYPAD_5: u16 = 0x57;
pub const KVK_ANSI_KEYPAD_6: u16 = 0x58;
pub const KVK_ANSI_KEYPAD_7: u16 = 0x59;
pub const KVK_ANSI_KEYPAD_8: u16 = 0x5B;
pub const KVK_ANSI_KEYPAD_9: u16 = 0x5C;
pub const KVK_JIS_KEYPAD_COMMA: u16 = 0x5F;
pub const KVK_F5: u16 = 0x60;
pub const KVK_F6: u16 = 0x61;
pub const KVK_F7: u16 = 0x62;
pub const KVK_F3: u16 = 0x63;
pub const KVK_F8: u16 = 0x64;
pub const KVK_F9: u16 = 0x65;
pub const KVK_JIS_EISU: u16 = 0x66;
pub const KVK_F11: u16 = 0x67;
pub const KVK_F10: u16 = 0x6D;
pub const KVK_F12: u16 = 0x6F;
pub const KVK_HELP: u16 = 0x72;
pub const KVK_HOME: u16 = 0x73;
pub const KVK_PAGE_UP: u16 = 0x74;
pub const KVK_FORWARD_DELETE: u16 = 0x75;
pub const KVK_F4: u16 = 0x76;
pub const KVK_END: u16 = 0x77;
pub const KVK_F2: u16 = 0x78;
pub const KVK_PAGE_DOWN: u16 = 0x79;
pub const KVK_F1: u16 = 0x7A;
pub const KVK_LEFT_ARROW: u16 = 0x7B;
pub const KVK_RIGHT_ARROW: u16 = 0x7C;
pub const KVK_DOWN_ARROW: u16 = 0x7D;
pub const KVK_UP_ARROW: u16 = 0x7E;

/// The macOS virtual key code of the key at evdev scancode `code`.
pub open spec fn macos_of_evdev(code: u16) -> Option<u16> {
    if code == 1 {
        Some(KVK_ESCAPE)
    } else if code == 2 {
        Some(KVK_ANSI_1)
    } else if code == 3 {
        Some(KVK_ANSI_2)
    } else if code == 4 {
        Some(KVK_ANSI_3)
    } else if code == 5 {
        Some(KVK_ANSI_4)
    } else if code == 6 {
        Some(KVK_ANSI_5)
    } else if code == 7 {
        Some(KVK_ANSI_6)
    } else if code == 8 {
        Some(KVK_ANSI_7)
    } else if code == 9 {
        Some(KVK_ANSI_8)
    } else if code == 10 {
        Some(KVK_ANSI_9)
    } else if code == 11 {
        Some(KVK_ANSI_0)
    } else if code == 12 {
        Some(KVK_ANSI_MINUS)
    } else if code == 13 {
        Some(KVK_ANSI_EQUAL)
    } else if code == 14 {
        Some(KVK_DELETE)
    } else if code == 15 {
        Some(KVK_TAB)
    } else if code == 16 {
        Some(KVK_ANSI_Q)
    } else if code == 17 {
        Some(KVK_ANSI_W)
    } else if code == 18 {
        Some(KVK_ANSI_E)
    } else if code == 19 {
        Some(KVK_ANSI_R)
    } else if code == 20 {
        Some(KVK_ANSI_T)
    } else if code == 21 {
        Some(KVK_ANSI_Y)
    } else if code == 22 {
        Some(KVK_ANSI_U)
    } else if code == 23 {
        Some(KVK_ANSI_I)
    } else if code == 24 {
        Some(KVK_ANSI_O)
    } else if code == 25 {
        Some(KVK_ANSI_P)
    } else if code == 26 {
        Some(KVK_ANSI_LEFT_BRACKET)
    } else if code == 27 {
        Some(KVK_ANSI_RIGHT_BRACKET)
    } else if code == 28 {
        Some(KVK_RETURN)
    } else if code == 29 {
        Some(KVK_CONTROL)
    } else if code == 30 {
        Some(KVK_ANSI_A)
    } else if code == 31 {
        Some(KVK_ANSI_S)
    } else if code == 32 {
        Some(KVK_ANSI_D)
    } else if code == 33 {
        Some(KVK_ANSI_F)
    } else if code == 34 {
        Some(KVK_ANSI_G)
    } else if code == 35 {
        Some(KVK_ANSI_H)
    } else if code == 36 {
        Some(KVK_ANSI_J)
    } else if code == 37 {
        Some(KVK_ANSI_K)
    } else if code == 38 {
        Some(KVK_ANSI_L)
    } else if code == 39 {
        Some(KVK_ANSI_SEMICOLON)
    } else if code == 40 {
        Some(KVK_ANSI_QUOTE)
    } else if code == 41 {
        Some(KVK_ANSI_GRAVE)
    } else if code == 42 {
        Some(KVK_SHIFT)
    } else if code == 43 {
        Some(KVK_ANSI_BACKSLASH)
    } else if code == 44 {
        Some(KVK_ANSI_Z)
    } else if code == 45 {
        Some(KVK_ANSI_X)
    } else if code == 46 {
        Some(KVK_ANSI_C)
    } else if code == 47 {
        Some(KVK_ANSI_V)
    } else if code == 48 {
        Some(KVK_ANSI_B)
    } else if code == 49 {
        Some(KVK_ANSI_N)
    } else if code == 50 {
        Some(KVK_ANSI_M)
    } else if code == 51 {
        Some(KVK_ANSI_COMMA)
    } else if code == 52 {
        Some(KVK_ANSI_PERIOD)
    } else if code == 53 {
        Some(KVK_ANSI_SLASH)
    } else if code == 54 {
        Some(KVK_RIGHT_SHIFT)
    } else if code == 55 {
        Some(KVK_ANSI_KEYPAD_MULTIPLY)
    } else if code == 56 {
        Some(KVK_OPTION)
    } else if code == 57 {
        Some(KVK_SPACE)
    } else if code == 58 {
        Some(KVK_CAPS_LOCK)
    } else if code == 59 {
        Some(KVK_F1)
    } else if code == 60 {
        Some(KVK_F2)
    } else if code == 61 {
        Some(KVK_F3)
    } else if code == 62 {
        Some(KVK_F4)
    } else if code == 63 {
        Some(KVK_F5)
    } else if code == 64 {
        Some(KVK_F6)
    } else if code == 65 {
        Some(KVK_F7)
    } else if code == 66 {
        Some(KVK_F8)
    } else if code == 67 {
        Some(KVK_F9)
    } else if code == 68 {
        Some(KVK_F10)
    } else if code == 71 {
        Some(KVK_ANSI_KEYPAD_7)
    } else if code == 72 {
        Some(KVK_ANSI_KEYPAD_8)
    } else if code == 73 {
        Some(KVK_ANSI_KEYPAD_9)
    } else if code == 74 {
        Some(KVK_ANSI_KEYPAD_MINUS)
    } else if code == 75 {
        Some(KVK_ANSI_KEYPAD_4)
    } else if code == 76 {
        Some(KVK_ANSI_KEYPAD_5)
    } else if code == 77 {
        Some(KVK_ANSI_KEYPAD_6)
    } else if code == 78 {
        Some(KVK_ANSI_KEYPAD_PLUS)
    } else if code == 79 {
        Some(KVK_ANSI_KEYPAD_1)
    } else if code == 80 {
        Some(KVK_ANSI_KEYPAD_2)
    } else if code == 81 {
        Some(KVK_ANSI_KEYPAD_3)
    } else if code == 82 {
        Some(KVK_ANSI_KEYPAD_0)
    } else if code == 83 {
        Some(KVK_ANSI_KEYPAD_DECIMAL)
    } else if code == 86 {
        Some(KVK_ISO_SECTION)
    } else if code == 87 {
        Some(KVK_F11)
    } else if code == 88 {
        Some(KVK_F12)
    } else if code == 96 {
        Some(KVK_ANSI_KEYPAD_ENTER)
    } else if code == 97 {
        Some(KVK_RIGHT_CONTROL)
    } else if code == 98 {
        Some(KVK_ANSI_KEYPAD_DIVIDE)
    } else if code == 100 {
        Some(KVK_RIGHT_OPTION)
    } else if code == 102 {
        Some(KVK_HOME)
    } else if code == 103 {
        Some(KVK_UP_ARROW)
    } else if code == 104 {
        Some(KVK_PAGE_UP)
    } else if code == 105 {
        Some(KVK_LEFT_ARROW)
    } else if code == 106 {
        Some(KVK_RIGHT_ARROW)
    } else if code == 107 {
        Some(KVK_END)
    } else if code == 108 {
        Some(KVK_DOWN_ARROW)
    } else if code == 109 {
        Some(KVK_PAGE_DOWN)
    } else if code == 111 {
        Some(KVK_FORWARD_DELETE)
    } else if code == 117 {
        Some(KVK_ANSI_KEYPAD_EQUAL)
    } else if code == 121 {
        Some(KVK_JIS_KEYPAD_COMMA)
    } else if code == 122 {
        Some(KVK_JIS_EISU)
    } else if code == 125 {
        Some(KVK_COMMAND)
    } else if code == 126 {
        Some(KVK_RIGHT_COMMAND)
    } else if code == 138 {
        Some(KVK_HELP)
    } else {
        None
    }
}

/// The evdev scancode of the key with macOS virtual key code `code`.
pub open spec fn evdev_of_macos(code: u16) -> Option<u16> {
    if code == KVK_ANSI_A {
        Some(30u16)
    } else if code == KVK_ANSI_S {
        Some(31u16)
    } else if code == KVK_ANSI_D {
        Some(32u16)
    } else if code == KVK_ANSI_F {
        Some(33u16)
    } else if code == KVK_ANSI_H {
        Some(35u16)
    } else if code == KVK_ANSI_G {
        Some(34u16)
    } else if code == KVK_ANSI_Z {
        Some(44u16)
    } else if code == KVK_ANSI_X {
        Some(45u16)
    } else if code == KVK_ANSI_C {
        Some(46u16)
    } else if code == KVK_ANSI_V {
        Some(47u16)
    } else if code == KVK_ISO_SECTION {
        Some(86u16)
    } else if code == KVK_ANSI_B {
        Some(48u16)
    } else if code == KVK_ANSI_Q {
        Some(16u16)
    } else if code == KVK_ANSI_W {
        Some(17u16)
    } else if code == KVK_ANSI_E {
        Some(18u16)
    } else if code == KVK_ANSI_R {
        Some(19u16)
    } else if code == KVK_ANSI_Y {
        Some(21u16)
    } else if code == KVK_ANSI_T {
        Some(20u16)
    } else if code == KVK_ANSI_1 {
        Some(2u16)
    } else if code == KVK_ANSI_2 {
        Some(3u16)
    } else if code == KVK_ANSI_3 {
        Some(4u16)
    } else if code == KVK_ANSI_4 {
        Some(5u16)
    } else if code == KVK_ANSI_6 {
        Some(7u16)
    } else if code == KVK_ANSI_5 {
        Some(6u16)
    } else if code == KVK_ANSI_EQUAL {
        Some(13u16)
    } else if code == KVK_ANSI_9 {
        Some(10u16)
    } else if code == KVK_ANSI_7 {
        Some(8u16)
    } else if code == KVK_ANSI_MINUS {
        Some(12u16)
    } else if code == KVK_ANSI_8 {
        Some(9u16)
    } else if code == KVK_ANSI_0 {
        Some(11u16)
    } else if code == KVK_ANSI_RIGHT_BRACKET {
        Some(27u16)
    } else if code == KVK_ANSI_O {
        Some(24u16)
    } else if code == KVK_ANSI_U {
        Some(22u16)
    } else if code == KVK_ANSI_LEFT_BRACKET {
        Some(26u16)
    } else if code == KVK_ANSI_I {
        Some(23u16)
    } else if code == KVK_ANSI_P {
        Some(25u16)
    } else if code == KVK_RETURN {
        Some(28u16)
    } else if code == KVK_ANSI_L {
        Some(38u16)
    } else if code == KVK_ANSI_J {
        Some(36u16)
    } else if code == KVK_ANSI_QUOTE {
        Some(40u16)
    } else if code == KVK_ANSI_K {
        Some(37u16)
    } else if code == KVK_ANSI_SEMICOLON {
        Some(39u16)
    } else if code == KVK_ANSI_BACKSLASH {
        Some(43u16)
    } else if code == KVK_ANSI_COMMA {
        Some(51u16)
    } else if code == KVK_ANSI_SLASH {
        Some(53u16)
    } else if code == KVK_ANSI_N {
        Some(49u16)
    } else if code == KVK_ANSI_M {
        Some(50u16)
    } else if code == KVK_ANSI_PERIOD {
        Some(52u16)
    } else if code == KVK_TAB {
        Some(15u16)
    } else if code == KVK_SPACE {
        Some(57u16)
    } else if code == KVK_ANSI_GRAVE {
        Some(41u16)
    } else if code == KVK_DELETE {
        Some(14u16)
    } else if code == KVK_ESCAPE {
        Some(1u16)
    } else if code == KVK_RIGHT_COMMAND {
        Some(126u16)
    } else if code == KVK_COMMAND {
        Some(125u16)
    } else if code == KVK_SHIFT {
        Some(42u16)
    } else if code == KVK_CAPS_LOCK {
        Some(58u16)
    } else if code == KVK_OPTION {
        Some(56u16)
    } else if code == KVK_CONTROL {
        Some(29u16)
    } else if code == KVK_RIGHT_SHIFT {
        Some(54u16)
    } else if code == KVK_RIGHT_OPTION {
        Some(100u16)
    } else if code == KVK_RIGHT_CONTROL {
        Some(97u16)
    } else if code == KVK_ANSI_KEYPAD_DECIMAL {
        Some(83u16)
    } else if code == KVK_ANSI_KEYPAD_MULTIPLY {
        Some(55u16)
    } else if code == KVK_ANSI_KEYPAD_PLUS {
        Some(78u16)
    } else if code == KVK_ANSI_KEYPAD_DIVIDE {
        Some(98u16)
    } else if code == KVK_ANSI_KEYPAD_ENTER {
        Some(96u16)
    } else if code == KVK_ANSI_KEYPAD_MINUS {
        Some(74u16)
    } else if code == KVK_ANSI_KEYPAD_EQUAL {
        Some(117u16)
    } else if code == KVK_ANSI_KEYPAD_0 {
        Some(82u16)
    } else if code == KVK_ANSI_KEYPAD_1 {
        Some(79u16)
    } else if code == KVK_ANSI_KEYPAD_2 {
        Some(80u16)
    } else if code == KVK_ANSI_KEYPAD_3 {
        Some(81u16)
    } else if code == KVK_ANSI_KEYPAD_4 {
        Some(75u16)
    } else if code == KVK_ANSI_KEYPAD_5 {
        Some(76u16)
    } else if code == KVK_ANSI_KEYPAD_6 {
        Some(77u16)
    } else if code == KVK_ANSI_KEYPAD_7 {
        Some(71u16)
    } else if code == KVK_ANSI_KEYPAD_8 {
        Some(72u16)
    } else if code == KVK_ANSI_KEYPAD_9 {
        Some(73u16)
    } else if code == KVK_JIS_KEYPAD_COMMA {
        Some(121u16)
    } else if code == KVK_F5 {
        Some(63u16)
    } else if code == KVK_F6 {
        Some(64u16)
    } else if code == KVK_F7 {
        Some(65u16)
    } else if code == KVK_F3 {
        Some(61u16)
    } else if code == KVK_F8 {
        Some(66u16)
    } else if code == KVK_F9 {
        Some(67u16)
    } else if code == KVK_JIS_EISU {
        Some(122u16)
    } else if code == KVK_F11 {
        Some(87u16)
    } else if code == KVK_F10 {
        Some(68u16)
    } else if code == KVK_F12 {
        Some(88u16)
    } else if code == KVK_HELP {
        Some(138u16)
    } else if code == KVK_HOME {
        Some(102u16)
    } else if code == KVK_PAGE_UP {
        Some(104u16)
    } else if code == KVK_FORWARD_DELETE {
        Some(111u16)
    } else if code == KVK_F4 {
        Some(62u16)
    } else if code == KVK_END {
        Some(107u16)
    } else if code == KVK_F2 {
        Some(60u16)
    } else if code == KVK_PAGE_DOWN {
        Some(109u16)
    } else if code == KVK_F1 {
        Some(59u16)
    } else if code == KVK_LEFT_ARROW {
        Some(105u16)
    } else if code == KVK_RIGHT_ARROW {
        Some(106u16)
    } else if code == KVK_DOWN_ARROW {
        Some(108u16)
    } else if code == KVK_UP_ARROW {
        Some(103u16)
    } else {
        None
    }
}

/// Map a Linux evdev scancode to a macOS virtual key code.
pub fn evdev_to_macos(code: u16) -> (r: Option<u16>)
    ensures
        r == macos_of_evdev(code),
{
    match code {
        1 => Some(KVK_ESCAPE),
        2 => Some(KVK_ANSI_1),
        3 => Some(KVK_ANSI_2),
        4 => Some(KVK_ANSI_3),
        5 => Some(KVK_ANSI_4),
        6 => Some(KVK_ANSI_5),
        7 => Some(KVK_ANSI_6),
        8 => Some(KVK_ANSI_7),
        9 => Some(KVK_ANSI_8),
        10 => Some(KVK_ANSI_9),
        11 => Some(KVK_ANSI_0),
        12 => Some(KVK_ANSI_MINUS),
        13 => Some(KVK_ANSI_EQUAL),
        14 => Some(KVK_DELETE),
        15 => Some(KVK_TAB),
        16 => Some(KVK_ANSI_Q),
        17 => Some(KVK_ANSI_W),
        18 => Some(KVK_ANSI_E),
        19 => Some(KVK_ANSI_R),
        20 => Some(KVK_ANSI_T),
        21 => Some(KVK_ANSI_Y),
        22 => Some(KVK_ANSI_U),
        23 => Some(KVK_ANSI_I),
        24 => Some(KVK_ANSI_O),
        25 => Some(KVK_ANSI_P),
        26 => Some(KVK_ANSI_LEFT_BRACKET),
        27 => Some(KVK_ANSI_RIGHT_BRACKET),
        28 => Some(KVK_RETURN),
        29 => Some(KVK_CONTROL),
        30 => Some(KVK_ANSI_A),
        31 => Some(KVK_ANSI_S),
        32 => Some(KVK_ANSI_D),
        33 => Some(KVK_ANSI_F),
        34 => Some(KVK_ANSI_G),
        35 => Some(KVK_ANSI_H),
        36 => Some(KVK_ANSI_J),
        37 => Some(KVK_ANSI_K),
        38 => Some(KVK_ANSI_L),
        39 => Some(KVK_ANSI_SEMICOLON),
        40 => Some(KVK_ANSI_QUOTE),
        41 => Some(KVK_ANSI_GRAVE),
        42 => Some(KVK_SHIFT),
        43 => Some(KVK_ANSI_BACKSLASH),
        44 => Some(KVK_ANSI_Z),
        45 => Some(KVK_ANSI_X),
        46 => Some(KVK_ANSI_C),
        47 => Some(KVK_ANSI_V),
        48 => Some(KVK_ANSI_B),
        49 => Some(KVK_ANSI_N),
        50 => Some(KVK_ANSI_M),
        51 => Some(KVK_ANSI_COMMA),
        52 => Some(KVK_ANSI_PERIOD),
        53 => Some(KVK_ANSI_SLASH),
        54 => Some(KVK_RIGHT_SHIFT),
        55 => Some(KVK_ANSI_KEYPAD_MULTIPLY),
        56 => Some(KVK_OPTION),
        57 => Some(KVK_SPACE),
        58 => Some(KVK_CAPS_LOCK),
        59 => Some(KVK_F1),
        60 => Some(KVK_F2),
        61 => Some(KVK_F3),
        62 => Some(KVK_F4),
        63 => Some(KVK_F5),
        64 => Some(KVK_F6),
        65 => Some(KVK_F7),
        66 => Some(KVK_F8),
        67 => Some(KVK_F9),
        68 => Some(KVK_F10),
        71 => Some(KVK_ANSI_KEYPAD_7),
        72 => Some(KVK_ANSI_KEYPAD_8),
        73 => Some(KVK_ANSI_KEYPAD_9),
        74 => Some(KVK_ANSI_KEYPAD_MINUS),
        75 => Some(KVK_ANSI_KEYPAD_4),
        76 => Some(KVK_ANSI_KEYPAD_5),
        77 => Some(KVK_ANSI_KEYPAD_6),
        78 => Some(KVK_ANSI_KEYPAD_PLUS),
        79 => Some(KVK_ANSI_KEYPAD_1),
        80 => Some(KVK_ANSI_KEYPAD_2),
        81 => Some(KVK_ANSI_KEYPAD_3),
        82 => Some(KVK_ANSI_KEYPAD_0),
        83 => Some(KVK_ANSI_KEYPAD_DECIMAL),
        86 => Some(KVK_ISO_SECTION),
        87 => Some(KVK_F11),
        88 => Some(KVK_F12),
        96 => Some(KVK_ANSI_KEYPAD_ENTER),
        97 => Some(KVK_RIGHT_CONTROL),
        98 => Some(KVK_ANSI_KEYPAD_DIVIDE),
        100 => Some(KVK_RIGHT_OPTION),
        102 => Some(KVK_HOME),
        103 => Some(KVK_UP_ARROW),
        104 => Some(KVK_PAGE_UP),
        105 => Some(KVK_LEFT_ARROW),
        106 => Some(KVK_RIGHT_ARROW),
        107 => Some(KVK_END),
        108 => Some(KVK_DOWN_ARROW),
        109 => Some(KVK_PAGE_DOWN),
        111 => Some(KVK_FORWARD_DELETE),
        117 => Some(KVK_ANSI_KEYPAD_EQUAL),
        121 => Some(KVK_JIS_KEYPAD_COMMA),
        122 => Some(KVK_JIS_EISU),
        125 => Some(KVK_COMMAND),
        126 => Some(KVK_RIGHT_COMMAND),
        138 => Some(KVK_HELP),
        _ => None,
    }
}

/// Map a macOS virtual key code to a Linux evdev scancode.
pub fn macos_to_evdev(code: u16) -> (r: Option<u16>)
    ensures
        r == evdev_of_macos(code),
{
    match code {
        KVK_ANSI_A => Some(30),
        KVK_ANSI_S => Some(31),
        KVK_ANSI_D => Some(32),
        KVK_ANSI_F => Some(33),
        KVK_ANSI_H => Some(35),
        KVK_ANSI_G => Some(34),
        KVK_ANSI_Z => Some(44),
        KVK_ANSI_X => Some(45),
        KVK_ANSI_C => Some(46),
        KVK_ANSI_V => Some(47),
        KVK_ISO_SECTION => Some(86),
        KVK_ANSI_B => Some(48),
        KVK_ANSI_Q => Some(16),
        KVK_ANSI_W => Some(17),
        KVK_ANSI_E => Some(18),
        KVK_ANSI_R => Some(19),
        KVK_ANSI_Y => Some(21),
        KVK_ANSI_T => Some(20),
        KVK_ANSI_1 => Some(2),
        KVK_ANSI_2 => Some(3),
        KVK_ANSI_3 => Some(4),
        KVK_ANSI_4 => Some(5),
        KVK_ANSI_6 => Some(7),
        KVK_ANSI_5 => Some(6),
        KVK_ANSI_EQUAL => Some(13),
        KVK_ANSI_9 => Some(10),
        KVK_ANSI_7 => Some(8),
        KVK_ANSI_MINUS => Some(12),
        KVK_ANSI_8 => Some(9),
        KVK_ANSI_0 => Some(11),
        KVK_ANSI_RIGHT_BRACKET => Some(27),
        KVK_ANSI_O => Some(24),
        KVK_ANSI_U => Some(22),
        KVK_ANSI_LEFT_BRACKET => Some(26),
        KVK_ANSI_I => Some(23),
        KVK_ANSI_P => Some(25),
        KVK_RETURN => Some(28),
        KVK_ANSI_L => Some(38),
        KVK_ANSI_J => Some(36),
        KVK_ANSI_QUOTE => Some(40),
        KVK_ANSI_K => Some(37),
        KVK_ANSI_SEMICOLON => Some(39),
        KVK_ANSI_BACKSLASH => Some(43),
        KVK_ANSI_COMMA => Some(51),
        KVK_ANSI_SLASH => Some(53),
        KVK_ANSI_N => Some(49),
        KVK_ANSI_M => Some(50),
        KVK_ANSI_PERIOD => Some(52),
        KVK_TAB => Some(15),
        KVK_SPACE => Some(57),
        KVK_ANSI_GRAVE => Some(41),
        KVK_DELETE => Some(14),
        KVK_ESCAPE => Some(1),
        KVK_RIGHT_COMMAND => Some(126),
        KVK_COMMAND => Some(125),
        KVK_SHIFT => Some(42),
        KVK_CAPS_LOCK => Some(58),
        KVK_OPTION => Some(56),
        KVK_CONTROL => Some(29),
        KVK_RIGHT_SHIFT => Some(54),
        KVK_RIGHT_OPTION => Some(100),
        KVK_RIGHT_CONTROL => Some(97),
        KVK_ANSI_KEYPAD_DECIMAL => Some(83),
        KVK_ANSI_KEYPAD_MULTIPLY => Some(55),
        KVK_ANSI_KEYPAD_PLUS => Some(78),
        KVK_ANSI_KEYPAD_DIVIDE => Some(98),
        KVK_ANSI_KEYPAD_ENTER => Some(96),
        KVK_ANSI_KEYPAD_MINUS => Some(74),
        KVK_ANSI_KEYPAD_EQUAL => Some(117),
        KVK_ANSI_KEYPAD_0 => Some(82),
        KVK_ANSI_KEYPAD_1 => Some(79),
        KVK_ANSI_KEYPAD_2 => Some(80),
        KVK_ANSI_KEYPAD_3 => Some(81),
        KVK_ANSI_KEYPAD_4 => Some(75),
        KVK_ANSI_KEYPAD_5 => Some(76),
        KVK_ANSI_KEYPAD_6 => Some(77),
        KVK_ANSI_KEYPAD_7 => Some(71),
        KVK_ANSI_KEYPAD_8 => Some(72),
        KVK_ANSI_KEYPAD_9 => Some(73),
        KVK_JIS_KEYPAD_COMMA => Some(121),
        KVK_F5 => Some(63),
        KVK_F6 => Some(64),
        KVK_F7 => Some(65),
        KVK_F3 => Some(61),
        KVK_F8 => Some(66),
        KVK_F9 => Some(67),
        KVK_JIS_EISU => Some(122),
        KVK_F11 => Some(87),
        KVK_F10 => Some(68),
        KVK_F12 => Some(88),
        KVK_HELP => Some(138),
        KVK_HOME => Some(102),
        KVK_PAGE_UP => Some(104),
        KVK_FORWARD_DELETE => Some(111),
        KVK_F4 => Some(62),
        KVK_END => Some(107),
        KVK_F2 => Some(60),
        KVK_PAGE_DOWN => Some(109),
        KVK_F1 => Some(59),
        KVK_LEFT_ARROW => Some(105),
        KVK_RIGHT_ARROW => Some(106),
        KVK_DOWN_ARROW => Some(108),
        KVK_UP_ARROW => Some(103),
        _ => None,
    }
}

/// Every evdev scancode that has a macOS key comes back from that key
/// unchanged.
pub proof fn lemma_evdev_macos_roundtrip(code: u16)
    ensures
        macos_of_evdev(code) matches Some(m) ==> evdev_of_macos(m) == Some(code),
{
}

/// Every macOS key that has an evdev scancode comes back from that scancode
/// unchanged.
pub proof fn lemma_macos_evdev_roundtrip(code: u16)
    ensures
        evdev_of_macos(code) matches Some(e) ==> macos_of_evdev(e) == Some(code),
{
}

/// Only scancodes below 256 and virtual key codes below 128 are mapped.
pub proof fn lemma_mapped_ranges(code: u16)
    ensures
        macos_of_evdev(code) is Some ==> code < 256,
        evdev_of_macos(code) is Some ==> code < 128,
{
}

} // verus!
