//! Hotkey strings such as `"Ctrl+Alt+G"`: splitting them into modifiers and
//! one key, and resolving the key label to an X11 keysym, an X11 keycode or
//! a macOS virtual key code.

use vstd::prelude::*;
use vstd::string::StrSliceExecFns;
use crate::input::macos_keycodes::{KVK_ANSI_A, KVK_ANSI_0, KVK_ANSI_1, KVK_ANSI_2, KVK_ANSI_3, KVK_ANSI_4, KVK_ANSI_5, KVK_ANSI_6, KVK_ANSI_7, KVK_ANSI_8, KVK_ANSI_9, KVK_ANSI_GRAVE, KVK_ANSI_MINUS, KVK_ANSI_EQUAL, KVK_ANSI_LEFT_BRACKET, KVK_ANSI_RIGHT_BRACKET, KVK_ANSI_BACKSLASH, KVK_ANSI_SEMICOLON, KVK_ANSI_QUOTE, KVK_ANSI_COMMA, KVK_ANSI_PERIOD, KVK_ANSI_SLASH, KVK_SPACE, KVK_RETURN, KVK_TAB, KVK_DELETE, KVK_FORWARD_DELETE, KVK_HOME, KVK_END, KVK_PAGE_UP, KVK_PAGE_DOWN, KVK_LEFT_ARROW, KVK_RIGHT_ARROW, KVK_UP_ARROW, KVK_DOWN_ARROW, KVK_CAPS_LOCK, KVK_F1, KVK_F2, KVK_F3, KVK_F4, KVK_F5, KVK_F6, KVK_F7, KVK_F8, KVK_F9, KVK_F10, KVK_F11, KVK_F12};
use crate::text::{hex, is_ws, lemma_trimmed_id, push_hex, str_eq, trim, trimmed};
use vstd::string::StringExecFns;

verus! {

/// X11 modifier mask bits.
pub const MOD_SHIFT: u16 = 1;
pub const MOD_LOCK: u16 = 2;
pub const MOD_CONTROL: u16 = 4;
pub const MOD_M1: u16 = 8;
pub const MOD_M2: u16 = 16;
pub const MOD_M4: u16 = 64;
/// The X11 modifiers that take part in hotkey matching.
pub const RELEVANT_MODS: u16 = 77;

/// macOS event flag bits (`CGEventFlags`).
pub const FLAG_SHIFT: u64 = 0x20000;
pub const FLAG_CONTROL: u64 = 0x40000;
pub const FLAG_ALTERNATE: u64 = 0x80000;
pub const FLAG_COMMAND: u64 = 0x100000;
/// The macOS flags that take part in hotkey matching.
pub const RELEVANT_FLAGS: u64 = 0x1E0000;

/// The platform whose modifier names and bits a hotkey is read with.
#[derive(Clone, Copy, PartialEq, Eq, Structural, Debug)]
pub enum HotkeyPlatform {
    X11,
    MacOs,
}

/// Why a hotkey string was refused.
#[derive(Clone, PartialEq, Eq, Debug)]
pub enum HotkeyError {
    /// More than one non-modifier key; holds the whole hotkey string.
    MultipleKeys(String),
    /// No non-modifier key.
    NoKey,
    /// The key label has no key; holds the label.
    UnsupportedKey(String),
    /// The keyboard mapping has no keycode for the keysym.
    NoKeycode(u32),
}

/// A hotkey error with its strings taken as character sequences.
pub enum HotkeyFault {
    MultipleKeys(Seq<char>),
    NoKey,
    UnsupportedKey(Seq<char>),
    NoKeycode(u32),
}

impl View for HotkeyError {
    type V = HotkeyFault;

    open spec fn view(&self) -> HotkeyFault {
        match self {
            HotkeyError::MultipleKeys(s) => HotkeyFault::MultipleKeys(s@),
            HotkeyError::NoKey => HotkeyFault::NoKey,
            HotkeyError::UnsupportedKey(s) => HotkeyFault::UnsupportedKey(s@),
            HotkeyError::NoKeycode(k) => HotkeyFault::NoKeycode(*k),
        }
    }
}

/// The pieces of `s` between the separator characters `sep`, empty pieces
/// included (as `str::split` gives them).
pub open spec fn split_on(s: Seq<char>, sep: char) -> Seq<Seq<char>>
    decreases s.len(),
{
    if s.len() == 0 {
        seq![Seq::empty()]
    } else {
        let rest = split_on(s.drop_last(), sep);
        if s.last() == sep {
            rest.push(Seq::empty())
        } else {
            rest.update(rest.len() - 1, rest.last().push(s.last()))
        }
    }
}

/// The modifier bit that a hotkey part names on a platform.
pub open spec fn modifier_bit(p: HotkeyPlatform, part: Seq<char>) -> Option<u64> {
    match p {
        HotkeyPlatform::X11 => {
            if part == "Ctrl"@ {
                Some(MOD_CONTROL as u64)
            } else if part == "Alt"@ {
                Some(MOD_M1 as u64)
            } else if part == "Shift"@ {
                Some(MOD_SHIFT as u64)
            } else if part == "Super"@ || part == "Meta"@ {
                Some(MOD_M4 as u64)
            } else {
                None
            }
        },
        HotkeyPlatform::MacOs => {
            if part == "Ctrl"@ {
                Some(FLAG_CONTROL)
            } else if part == "Alt"@ {
                Some(FLAG_ALTERNATE)
            } else if part == "Shift"@ {
                Some(FLAG_SHIFT)
            } else if part == "Super"@ || part == "Meta"@ || part == "Cmd"@ || part == "Command"@ {
                Some(FLAG_COMMAND)
            } else {
                None
            }
        },
    }
}

/// The modifiers and the key label gathered from the first `n` parts, or
/// `None` once a second key label appears.
pub open spec fn fold_parts(p: HotkeyPlatform, parts: Seq<Seq<char>>, n: nat) -> Option<(u64, Option<Seq<char>>)>
    decreases n,
{
    if n == 0 {
        Some((0u64, None))
    } else {
        match fold_parts(p, parts, (n - 1) as nat) {
            None => None,
            Some((m, label)) => {
                let part = trimmed(parts[n - 1]);
                match modifier_bit(p, part) {
                    Some(b) => Some((m | b, label)),
                    None => if label is Some {
                        None
                    } else {
                        Some((m, Some(part)))
                    },
                }
            },
        }
    }
}

/// A hotkey string split into its modifier bits and its key label.
pub open spec fn hotkey_split(p: HotkeyPlatform, hotkey: Seq<char>) -> Result<(u64, Seq<char>), HotkeyFault> {
    let parts = split_on(hotkey, '+');
    match fold_parts(p, parts, parts.len()) {
        None => Err(HotkeyFault::MultipleKeys(hotkey)),
        Some((_, None)) => Err(HotkeyFault::NoKey),
        Some((m, Some(label))) => Ok((m, label)),
    }
}

proof fn lemma_split_on_nonempty(s: Seq<char>, sep: char)
    ensures
        split_on(s, sep).len() >= 1,
    decreases s.len(),
{
    if s.len() > 0 {
        lemma_split_on_nonempty(s.drop_last(), sep);
    }
}

/// Split `s` at every `'+'`, keeping empty pieces.
fn split_plus(s: &str) -> (r: Vec<&str>)
    ensures
        r@.map_values(|x: &str| x@) == split_on(s@, '+'),
{
    let n = s.unicode_len();
    let mut pieces: Vec<&str> = Vec::new();
    let mut start: usize = 0;
    let mut i: usize = 0;
    proof {
        assert(s@.take(0) =~= Seq::<char>::empty());
        assert(s@.subrange(0, 0) =~= Seq::<char>::empty());
        assert(pieces@.map_values(|x: &str| x@).push(s@.subrange(0, 0)) =~= seq![Seq::<char>::empty()]);
    }
    while i < n
        invariant
            n == s@.len(),
            start <= i <= n,
            pieces@.map_values(|x: &str| x@).push(s@.subrange(start as int, i as int))
                == split_on(s@.take(i as int), '+'),
        decreases n - i,
    {
        let c = s.get_char(i);
        let ghost before = pieces@.map_values(|x: &str| x@);
        proof {
            assert(s@.take(i + 1).drop_last() =~= s@.take(i as int));
            assert(s@.take(i + 1).last() == c);
            lemma_split_on_nonempty(s@.take(i as int), '+');
        }
        if c == '+' {
            let piece = s.substring_char(start, i);
            pieces.push(piece);
            proof {
                assert(pieces@.map_values(|x: &str| x@) =~= before.push(s@.subrange(start as int, i as int)));
                assert(s@.subrange(i + 1, i + 1) =~= Seq::<char>::empty());
            }
            start = i + 1;
        } else {
            proof {
                assert(s@.subrange(start as int, i + 1) =~= s@.subrange(start as int, i as int).push(c));
                let old_all = before.push(s@.subrange(start as int, i as int));
                assert(old_all.update(old_all.len() - 1, old_all.last().push(c)) =~= before.push(
                    s@.subrange(start as int, i + 1),
                ));
            }
        }
        i += 1;
    }
    let piece = s.substring_char(start, n);
    let ghost before = pieces@.map_values(|x: &str| x@);
    pieces.push(piece);
    proof {
        assert(s@.take(n as int) =~= s@);
        assert(pieces@.map_values(|x: &str| x@) =~= before.push(s@.subrange(start as int, n as int)));
    }
    pieces
}

/// The modifier bit named by a trimmed hotkey part.
fn modifier_bit_of(p: HotkeyPlatform, part: &str) -> (r: Option<u64>)
    ensures
        r == modifier_bit(p, part@),
{
    proof {
        reveal_strlit("Ctrl");
        reveal_strlit("Alt");
        reveal_strlit("Shift");
        reveal_strlit("Super");
        reveal_strlit("Meta");
        reveal_strlit("Cmd");
        reveal_strlit("Command");
    }
    match p {
        HotkeyPlatform::X11 => {
            if str_eq(part, "Ctrl") {
                Some(MOD_CONTROL as u64)
            } else if str_eq(part, "Alt") {
                Some(MOD_M1 as u64)
            } else if str_eq(part, "Shift") {
                Some(MOD_SHIFT as u64)
            } else if str_eq(part, "Super") || str_eq(part, "Meta") {
                Some(MOD_M4 as u64)
            } else {
                None
            }
        },
        HotkeyPlatform::MacOs => {
            if str_eq(part, "Ctrl") {
                Some(FLAG_CONTROL)
            } else if str_eq(part, "Alt") {
                Some(FLAG_ALTERNATE)
            } else if str_eq(part, "Shift") {
                Some(FLAG_SHIFT)
            } else if str_eq(part, "Super") || str_eq(part, "Meta") || str_eq(part, "Cmd") || str_eq(
                part,
                "Command",
            ) {
                Some(FLAG_COMMAND)
            } else {
                None
            }
        },
    }
}

/// Split a hotkey string into its modifier bits and its one key label:
/// the parts between `'+'` are trimmed; modifier names set their bit, any
/// other part is the key label. A second key label, or none, is an error.
pub fn split_hotkey(p: HotkeyPlatform, hotkey: &str) -> (r: Result<(u64, String), HotkeyError>)
    ensures
        match (r, hotkey_split(p, hotkey@)) {
            (Ok((m, l)), Ok((sm, sl))) => m == sm && l@ == sl,
            (Err(e), Err(se)) => e@ == se,
            _ => false,
        },
{
    let parts = split_plus(hotkey);
    let ghost sp = split_on(hotkey@, '+');
    let mut mods: u64 = 0;
    let mut label: Option<&str> = None;
    let mut i: usize = 0;
    while i < parts.len()
        invariant
            parts@.map_values(|x: &str| x@) == sp,
            sp == split_on(hotkey@, '+'),
            i <= parts@.len(),
            fold_parts(p, sp, i as nat) == Some((mods, match label {
                Some(l) => Some(l@),
                None => None::<Seq<char>>,
            })),
        decreases parts@.len() - i,
    {
        let part = trim(parts[i]);
        proof {
            assert(sp[i as int] == parts@[i as int]@);
        }
        match modifier_bit_of(p, part) {
            Some(b) => {
                mods = mods | b;
            },
            None => {
                if label.is_some() {
                    proof {
                        assert(fold_parts(p, sp, (i + 1) as nat) is None);
                        lemma_fold_stays_none(p, sp, (i + 1) as nat, sp.len());
                    }
                    return Err(HotkeyError::MultipleKeys(hotkey.to_string()));
                }
                label = Some(part);
            },
        }
        i += 1;
    }
    match label {
        Some(l) => Ok((mods, l.to_string())),
        None => Err(HotkeyError::NoKey),
    }
}

proof fn lemma_fold_stays_none(p: HotkeyPlatform, parts: Seq<Seq<char>>, i: nat, n: nat)
    requires
        i <= n,
        fold_parts(p, parts, i) is None,
    ensures
        fold_parts(p, parts, n) is None,
    decreases n - i,
{
    if i < n {
        assert(fold_parts(p, parts, i + 1) is None);
        lemma_fold_stays_none(p, parts, i + 1, n);
    }
}

/// The X11 keysym of a named key label.
pub open spec fn named_keysym(l: Seq<char>) -> Option<u32> {
    if l == "Space"@ {
        Some(0x0020u32)
    } else if l == "Enter"@ {
        Some(0xff0du32)
    } else if l == "Tab"@ {
        Some(0xff09u32)
    } else if l == "Backspace"@ {
        Some(0xff08u32)
    } else if l == "Delete"@ {
        Some(0xffffu32)
    } else if l == "Insert"@ {
        Some(0xff63u32)
    } else if l == "Home"@ {
        Some(0xff50u32)
    } else if l == "End"@ {
        Some(0xff57u32)
    } else if l == "Page Up"@ {
        Some(0xff55u32)
    } else if l == "Page Down"@ {
        Some(0xff56u32)
    } else if l == "Left"@ {
        Some(0xff51u32)
    } else if l == "Right"@ {
        Some(0xff53u32)
    } else if l == "Up"@ {
        Some(0xff52u32)
    } else if l == "Down"@ {
        Some(0xff54u32)
    } else if l == "Print Screen"@ {
        Some(0xff61u32)
    } else if l == "Scroll Lock"@ {
        Some(0xff14u32)
    } else if l == "Pause"@ {
        Some(0xff13u32)
    } else if l == "Caps Lock"@ {
        Some(0xffe5u32)
    } else if l == "Num Lock"@ {
        Some(0xff7fu32)
    } else if l == "F1"@ {
        Some(0xffbeu32)
    } else if l == "F2"@ {
        Some(0xffbfu32)
    } else if l == "F3"@ {
        Some(0xffc0u32)
    } else if l == "F4"@ {
        Some(0xffc1u32)
    } else if l == "F5"@ {
        Some(0xffc2u32)
    } else if l == "F6"@ {
        Some(0xffc3u32)
    } else if l == "F7"@ {
        Some(0xffc4u32)
    } else if l == "F8"@ {
        Some(0xffc5u32)
    } else if l == "F9"@ {
        Some(0xffc6u32)
    } else if l == "F10"@ {
        Some(0xffc7u32)
    } else if l == "F11"@ {
        Some(0xffc8u32)
    } else if l == "F12"@ {
        Some(0xffc9u32)
    } else {
        None
    }
}

/// The X11 keysym of a key label: a named key, or one ASCII character
/// (letters taken in lower case).
pub open spec fn keysym_of_label(l: Seq<char>) -> Option<u32> {
    match named_keysym(l) {
        Some(k) => Some(k),
        None => if l.len() == 1 {
            let c = l[0];
            if 'A' <= c <= 'Z' {
                Some((c as u32 + 32) as u32)
            } else if (c as u32) < 128 {
                Some(c as u32)
            } else {
                None
            }
        } else {
            None
        },
    }
}

/// Map a key label to its X11 keysym.
pub fn label_to_keysym(label: &str) -> (r: Option<u32>)
    ensures
        r == keysym_of_label(label@),
{
    proof {
        reveal_strlit("Space");
        reveal_strlit("Enter");
        reveal_strlit("Tab");
        reveal_strlit("Backspace");
        reveal_strlit("Delete");
        reveal_strlit("Insert");
        reveal_strlit("Home");
        reveal_strlit("End");
        reveal_strlit("Page Up");
        reveal_strlit("Page Down");
        reveal_strlit("Left");
        reveal_strlit("Right");
        reveal_strlit("Up");
        reveal_strlit("Down");
        reveal_strlit("Print Screen");
        reveal_strlit("Scroll Lock");
        reveal_strlit("Pause");
        reveal_strlit("Caps Lock");
        reveal_strlit("Num Lock");
        reveal_strlit("F1");
        reveal_strlit("F2");
        reveal_strlit("F3");
        reveal_strlit("F4");
        reveal_strlit("F5");
        reveal_strlit("F6");
        reveal_strlit("F7");
        reveal_strlit("F8");
        reveal_strlit("F9");
        reveal_strlit("F10");
        reveal_strlit("F11");
        reveal_strlit("F12");
    }
    if str_eq(label, "Space") {
        return Some(0x0020);
    } else if str_eq(label, "Enter") {
        return Some(0xff0d);
    } else if str_eq(label, "Tab") {
        return Some(0xff09);
    } else if str_eq(label, "Backspace") {
        return Some(0xff08);
    } else if str_eq(label, "Delete") {
        return Some(0xffff);
    } else if str_eq(label, "Insert") {
        return Some(0xff63);
    } else if str_eq(label, "Home") {
        return Some(0xff50);
    } else if str_eq(label, "End") {
        return Some(0xff57);
    } else if str_eq(label, "Page Up") {
        return Some(0xff55);
    } else if str_eq(label, "Page Down") {
        return Some(0xff56);
    } else if str_eq(label, "Left") {
        return Some(0xff51);
    } else if str_eq(label, "Right") {
        return Some(0xff53);
    } else if str_eq(label, "Up") {
        return Some(0xff52);
    } else if str_eq(label, "Down") {
        return Some(0xff54);
    } else if str_eq(label, "Print Screen") {
        return Some(0xff61);
    } else if str_eq(label, "Scroll Lock") {
        return Some(0xff14);
    } else if str_eq(label, "Pause") {
        return Some(0xff13);
    } else if str_eq(label, "Caps Lock") {
        return Some(0xffe5);
    } else if str_eq(label, "Num Lock") {
        return Some(0xff7f);
    } else if str_eq(label, "F1") {
        return Some(0xffbe);
    } else if str_eq(label, "F2") {
        return Some(0xffbf);
    } else if str_eq(label, "F3") {
        return Some(0xffc0);
    } else if str_eq(label, "F4") {
        return Some(0xffc1);
    } else if str_eq(label, "F5") {
        return Some(0xffc2);
    } else if str_eq(label, "F6") {
        return Some(0xffc3);
    } else if str_eq(label, "F7") {
        return Some(0xffc4);
    } else if str_eq(label, "F8") {
        return Some(0xffc5);
    } else if str_eq(label, "F9") {
        return Some(0xffc6);
    } else if str_eq(label, "F10") {
        return Some(0xffc7);
    } else if str_eq(label, "F11") {
        return Some(0xffc8);
    } else if str_eq(label, "F12") {
        return Some(0xffc9);
    }
    if label.unicode_len() != 1 {
        return None;
    }
    let c = label.get_char(0);
    if 'A' <= c && c <= 'Z' {
        Some(c as u32 + 32)
    } else if (c as u32) < 128 {
        Some(c as u32)
    } else {
        None
    }
}

/// The macOS virtual key code of a named key label.
pub open spec fn named_macos_key(l: Seq<char>) -> Option<u16> {
    if l == "Space"@ {
        Some(KVK_SPACE)
    } else if l == "Enter"@ {
        Some(KVK_RETURN)
    } else if l == "Tab"@ {
        Some(KVK_TAB)
    } else if l == "Backspace"@ {
        Some(KVK_DELETE)
    } else if l == "Delete"@ {
        Some(KVK_FORWARD_DELETE)
    } else if l == "Home"@ {
        Some(KVK_HOME)
    } else if l == "End"@ {
        Some(KVK_END)
    } else if l == "Page Up"@ {
        Some(KVK_PAGE_UP)
    } else if l == "Page Down"@ {
        Some(KVK_PAGE_DOWN)
    } else if l == "Left"@ {
        Some(KVK_LEFT_ARROW)
    } else if l == "Right"@ {
        Some(KVK_RIGHT_ARROW)
    } else if l == "Up"@ {
        Some(KVK_UP_ARROW)
    } else if l == "Down"@ {
        Some(KVK_DOWN_ARROW)
    } else if l == "Caps Lock"@ {
        Some(KVK_CAPS_LOCK)
    } else if l == "F1"@ {
        Some(KVK_F1)
    } else if l == "F2"@ {
        Some(KVK_F2)
    } else if l == "F3"@ {
        Some(KVK_F3)
    } else if l == "F4"@ {
        Some(KVK_F4)
    } else if l == "F5"@ {
        Some(KVK_F5)
    } else if l == "F6"@ {
        Some(KVK_F6)
    } else if l == "F7"@ {
        Some(KVK_F7)
    } else if l == "F8"@ {
        Some(KVK_F8)
    } else if l == "F9"@ {
        Some(KVK_F9)
    } else if l == "F10"@ {
        Some(KVK_F10)
    } else if l == "F11"@ {
        Some(KVK_F11)
    } else if l == "F12"@ {
        Some(KVK_F12)
    } else {
        None
    }
}

/// The macOS virtual key code of a one-character key label. A letter gives
/// `KVK_ANSI_A` plus its place in the alphabet.
pub open spec fn macos_key_of_char(c: char) -> Option<u16> {
    if 'a' <= c <= 'z' {
        Some((KVK_ANSI_A + (c as u16 - 'a' as u16)) as u16)
    } else if 'A' <= c <= 'Z' {
        Some((KVK_ANSI_A + (c as u16 - 'A' as u16)) as u16)
    } else if c == '1' {
        Some(KVK_ANSI_1)
    } else if c == '2' {
        Some(KVK_ANSI_2)
    } else if c == '3' {
        Some(KVK_ANSI_3)
    } else if c == '4' {
        Some(KVK_ANSI_4)
    } else if c == '5' {
        Some(KVK_ANSI_5)
    } else if c == '6' {
        Some(KVK_ANSI_6)
    } else if c == '7' {
        Some(KVK_ANSI_7)
    } else if c == '8' {
        Some(KVK_ANSI_8)
    } else if c == '9' {
        Some(KVK_ANSI_9)
    } else if c == '0' {
        Some(KVK_ANSI_0)
    } else if c == '`' {
        Some(KVK_ANSI_GRAVE)
    } else if c == '-' {
        Some(KVK_ANSI_MINUS)
    } else if c == '=' {
        Some(KVK_ANSI_EQUAL)
    } else if c == '\u{5b}' {
        Some(KVK_ANSI_LEFT_BRACKET)
    } else if c == '\u{5d}' {
        Some(KVK_ANSI_RIGHT_BRACKET)
    } else if c == '\\' {
        Some(KVK_ANSI_BACKSLASH)
    } else if c == ';' {
        Some(KVK_ANSI_SEMICOLON)
    } else if c == '\'' {
        Some(KVK_ANSI_QUOTE)
    } else if c == ',' {
        Some(KVK_ANSI_COMMA)
    } else if c == '.' {
        Some(KVK_ANSI_PERIOD)
    } else if c == '/' {
        Some(KVK_ANSI_SLASH)
    } else {
        None
    }
}

/// The macOS virtual key code of a key label.
pub open spec fn macos_key_of_label(l: Seq<char>) -> Option<u16> {
    match named_macos_key(l) {
        Some(k) => Some(k),
        None => if l.len() == 1 {
            macos_key_of_char(l[0])
        } else {
            None
        },
    }
}

/// Map a key label to its macOS virtual key code.
pub fn label_to_macos_keycode(label: &str) -> (r: Option<u16>)
    ensures
        r == macos_key_of_label(label@),
{
    proof {
        reveal_strlit("Space");
        reveal_strlit("Enter");
        reveal_strlit("Tab");
        reveal_strlit("Backspace");
        reveal_strlit("Delete");
        reveal_strlit("Home");
        reveal_strlit("End");
        reveal_strlit("Page Up");
        reveal_strlit("Page Down");
        reveal_strlit("Left");
        reveal_strlit("Right");
        reveal_strlit("Up");
        reveal_strlit("Down");
        reveal_strlit("Caps Lock");
        reveal_strlit("F1");
        reveal_strlit("F2");
        reveal_strlit("F3");
        reveal_strlit("F4");
        reveal_strlit("F5");
        reveal_strlit("F6");
        reveal_strlit("F7");
        reveal_strlit("F8");
        reveal_strlit("F9");
        reveal_strlit("F10");
        reveal_strlit("F11");
        reveal_strlit("F12");
    }
    if str_eq(label, "Space") {
        return Some(KVK_SPACE);
    } else if str_eq(label, "Enter") {
        return Some(KVK_RETURN);
    } else if str_eq(label, "Tab") {
        return Some(KVK_TAB);
    } else if str_eq(label, "Backspace") {
        return Some(KVK_DELETE);
    } else if str_eq(label, "Delete") {
        return Some(KVK_FORWARD_DELETE);
    } else if str_eq(label, "Home") {
        return Some(KVK_HOME);
    } else if str_eq(label, "End") {
        return Some(KVK_END);
    } else if str_eq(label, "Page Up") {
        return Some(KVK_PAGE_UP);
    } else if str_eq(label, "Page Down") {
        return Some(KVK_PAGE_DOWN);
    } else if str_eq(label, "Left") {
        return Some(KVK_LEFT_ARROW);
    } else if str_eq(label, "Right") {
        return Some(KVK_RIGHT_ARROW);
    } else if str_eq(label, "Up") {
        return Some(KVK_UP_ARROW);
    } else if str_eq(label, "Down") {
        return Some(KVK_DOWN_ARROW);
    } else if str_eq(label, "Caps Lock") {
        return Some(KVK_CAPS_LOCK);
    } else if str_eq(label, "F1") {
        return Some(KVK_F1);
    } else if str_eq(label, "F2") {
        return Some(KVK_F2);
    } else if str_eq(label, "F3") {
        return Some(KVK_F3);
    } else if str_eq(label, "F4") {
        return Some(KVK_F4);
    } else if str_eq(label, "F5") {
        return Some(KVK_F5);
    } else if str_eq(label, "F6") {
        return Some(KVK_F6);
    } else if str_eq(label, "F7") {
        return Some(KVK_F7);
    } else if str_eq(label, "F8") {
        return Some(KVK_F8);
    } else if str_eq(label, "F9") {
        return Some(KVK_F9);
    } else if str_eq(label, "F10") {
        return Some(KVK_F10);
    } else if str_eq(label, "F11") {
        return Some(KVK_F11);
    } else if str_eq(label, "F12") {
        return Some(KVK_F12);
    }
    if label.unicode_len() != 1 {
        return None;
    }
    let c = label.get_char(0);
    if 'a' <= c && c <= 'z' {
        Some(KVK_ANSI_A + (c as u16 - 'a' as u16))
    } else if 'A' <= c && c <= 'Z' {
        Some(KVK_ANSI_A + (c as u16 - 'A' as u16))
    } else if c == '1' {
        Some(KVK_ANSI_1)
    } else if c == '2' {
        Some(KVK_ANSI_2)
    } else if c == '3' {
        Some(KVK_ANSI_3)
    } else if c == '4' {
        Some(KVK_ANSI_4)
    } else if c == '5' {
        Some(KVK_ANSI_5)
    } else if c == '6' {
        Some(KVK_ANSI_6)
    } else if c == '7' {
        Some(KVK_ANSI_7)
    } else if c == '8' {
        Some(KVK_ANSI_8)
    } else if c == '9' {
        Some(KVK_ANSI_9)
    } else if c == '0' {
        Some(KVK_ANSI_0)
    } else if c == '`' {
        Some(KVK_ANSI_GRAVE)
    } else if c == '-' {
        Some(KVK_ANSI_MINUS)
    } else if c == '=' {
        Some(KVK_ANSI_EQUAL)
    } else if c == '\u{5b}' {
        Some(KVK_ANSI_LEFT_BRACKET)
    } else if c == '\u{5d}' {
        Some(KVK_ANSI_RIGHT_BRACKET)
    } else if c == '\\' {
        Some(KVK_ANSI_BACKSLASH)
    } else if c == ';' {
        Some(KVK_ANSI_SEMICOLON)
    } else if c == '\'' {
        Some(KVK_ANSI_QUOTE)
    } else if c == ',' {
        Some(KVK_ANSI_COMMA)
    } else if c == '.' {
        Some(KVK_ANSI_PERIOD)
    } else if c == '/' {
        Some(KVK_ANSI_SLASH)
    } else {
        None
    }
}

impl HotkeyError {
    /// The error as text.
    pub fn message(&self) -> (r: String)
        ensures
            r@ == hotkey_error_text(self@),
    {
        let mut out = String::new();
        match self {
            HotkeyError::MultipleKeys(h) => {
                out.append("multiple non-modifier keys in '");
                out.append(h.as_str());
                out.append("'");
            },
            HotkeyError::NoKey => {
                out.append("no non-modifier key in hotkey");
            },
            HotkeyError::UnsupportedKey(l) => {
                out.append("unsupported key '");
                out.append(l.as_str());
                out.append("'");
            },
            HotkeyError::NoKeycode(k) => {
                out.append("no keycode found for keysym 0x");
                push_hex(&mut out, *k as u64);
            },
        }
        out
    }
}

/// The text of a hotkey error.
pub open spec fn hotkey_error_text(e: HotkeyFault) -> Seq<char> {
    match e {
        HotkeyFault::MultipleKeys(h) => "multiple non-modifier keys in '"@ + h + "'"@,
        HotkeyFault::NoKey => "no non-modifier key in hotkey"@,
        HotkeyFault::UnsupportedKey(l) => "unsupported key '"@ + l + "'"@,
        HotkeyFault::NoKeycode(k) => "no keycode found for keysym 0x"@ + hex(k as nat),
    }
}

/// The position of the first `k` in `s`.
pub open spec fn first_index(s: Seq<u32>, k: u32) -> Option<nat>
    decreases s.len(),
{
    if s.len() == 0 {
        None
    } else if s[0] == k {
        Some(0)
    } else {
        match first_index(s.drop_first(), k) {
            Some(i) => Some(i + 1),
            None => None,
        }
    }
}

proof fn lemma_first_index(s: Seq<u32>, k: u32, i: int)
    requires
        0 <= i <= s.len(),
        forall|j: int| 0 <= j < i ==> s[j] != k,
    ensures
        i < s.len() && s[i] == k ==> first_index(s, k) == Some(i as nat),
        i == s.len() ==> first_index(s, k) is None,
        first_index(s, k) matches Some(j) ==> j < s.len() && s[j as int] == k,
    decreases i,
{
    if i > 0 {
        lemma_first_index(s.drop_first(), k, i - 1);
    } else {
        if s.len() > 0 && s[0] != k {
            lemma_first_index_bound(s.drop_first(), k);
        }
    }
}

proof fn lemma_first_index_bound(s: Seq<u32>, k: u32)
    ensures
        first_index(s, k) matches Some(j) ==> j < s.len() && s[j as int] == k,
    decreases s.len(),
{
    if s.len() > 0 {
        lemma_first_index_bound(s.drop_first(), k);
    }
}

/// The keyboard mapping that an X server reports: for each keycode from
/// `min_keycode` on, `keysyms_per_keycode` keysyms in a row.
pub struct KeyboardMapping {
    pub min_keycode: u8,
    pub keysyms_per_keycode: u8,
    pub keysyms: Vec<u32>,
}

/// The keycode whose row of the mapping first holds `keysym`.
pub open spec fn keycode_of_keysym(min: u8, per: nat, keysyms: Seq<u32>, keysym: u32) -> Option<u8> {
    match first_index(keysyms, keysym) {
        Some(j) => Some((min + j / per) as u8),
        None => None,
    }
}

/// The mapping has a keycode for each of its rows.
pub open spec fn mapping_fits(m: KeyboardMapping) -> bool {
    &&& m.keysyms_per_keycode > 0
    &&& m.keysyms@.len() <= (256 - m.min_keycode) * m.keysyms_per_keycode
}

/// The keycode whose row of the mapping first holds `keysym`.
pub fn keysym_to_keycode(mapping: &KeyboardMapping, keysym: u32) -> (r: Option<u8>)
    requires
        mapping_fits(*mapping),
    ensures
        r == keycode_of_keysym(mapping.min_keycode, mapping.keysyms_per_keycode as nat, mapping.keysyms@, keysym),
{
    let per = mapping.keysyms_per_keycode as usize;
    let mut j: usize = 0;
    while j < mapping.keysyms.len()
        invariant
            j <= mapping.keysyms@.len(),
            per == mapping.keysyms_per_keycode as usize,
            mapping_fits(*mapping),
            forall|i: int| 0 <= i < j ==> mapping.keysyms@[i] != keysym,
        decreases mapping.keysyms@.len() - j,
    {
        if mapping.keysyms[j] == keysym {
            proof {
                lemma_first_index(mapping.keysyms@, keysym, j as int);
                let n = mapping.keysyms@.len() as int;
                let m = mapping.min_keycode as int;
                let p = per as int;
                let jj = j as int;
                assert(jj / p < 256 - m) by (nonlinear_arith)
                    requires
                        0 <= jj < n,
                        n <= (256 - m) * p,
                        p > 0,
                        m <= 255,
                ;
            }
            return Some(mapping.min_keycode + (j / per) as u8);
        }
        j += 1;
    }
    proof {
        lemma_first_index(mapping.keysyms@, keysym, j as int);
    }
    None
}

/// An X11 hotkey: its modifier mask and the keycode of its key.
pub open spec fn x11_hotkey(hotkey: Seq<char>, m: KeyboardMapping) -> Result<(u16, u8), HotkeyFault> {
    match hotkey_split(HotkeyPlatform::X11, hotkey) {
        Err(e) => Err(e),
        Ok((mods, label)) => match keysym_of_label(label) {
            None => Err(HotkeyFault::UnsupportedKey(label)),
            Some(ks) => match keycode_of_keysym(m.min_keycode, m.keysyms_per_keycode as nat, m.keysyms@, ks) {
                None => Err(HotkeyFault::NoKeycode(ks)),
                Some(kc) => Ok((mods as u16, kc)),
            },
        },
    }
}

/// A macOS hotkey: its event flags and the virtual key code of its key.
pub open spec fn macos_hotkey(hotkey: Seq<char>) -> Result<(u64, u16), HotkeyFault> {
    match hotkey_split(HotkeyPlatform::MacOs, hotkey) {
        Err(e) => Err(e),
        Ok((flags, label)) => match macos_key_of_label(label) {
            None => Err(HotkeyFault::UnsupportedKey(label)),
            Some(k) => Ok((flags, k)),
        },
    }
}

/// The modifier bits that a hotkey part can name stay within the relevant
/// masks of their platform.
proof fn lemma_fold_bits(p: HotkeyPlatform, parts: Seq<Seq<char>>, n: nat)
    ensures
        fold_parts(p, parts, n) matches Some((m, _)) ==> (p == HotkeyPlatform::X11 ==> m & 77 == m)
            && (p == HotkeyPlatform::MacOs ==> m & 0x1E0000 == m),
    decreases n,
{
    assert(0u64 & 77 == 0u64 && 0u64 & 0x1E0000 == 0u64) by (bit_vector);
    if n > 0 {
        lemma_fold_bits(p, parts, (n - 1) as nat);
        if let Some((m0, _)) = fold_parts(p, parts, (n - 1) as nat) {
            let part = trimmed(parts[n - 1]);
            if let Some(b) = modifier_bit(p, part) {
                if p == HotkeyPlatform::X11 {
                    assert(b == 1 || b == 4 || b == 8 || b == 64);
                    assert(m0 & 77 == m0 && (b == 1 || b == 4 || b == 8 || b == 64) ==> (m0 | b) & 77 == (m0 | b)) by (bit_vector);
                } else {
                    assert(b == 0x20000 || b == 0x40000 || b == 0x80000 || b == 0x100000);
                    assert(m0 & 0x1E0000 == m0 && (b == 0x20000 || b == 0x40000 || b == 0x80000 || b == 0x100000)
                        ==> (m0 | b) & 0x1E0000 == (m0 | b)) by (bit_vector);
                }
            }
        }
    }
}

/// Parse an X11 hotkey into its modifier mask and the keycode that the
/// keyboard mapping gives its key.
pub fn parse_x11_hotkey(hotkey: &str, mapping: &KeyboardMapping) -> (r: Result<(u16, u8), HotkeyError>)
    requires
        mapping_fits(*mapping),
    ensures
        match (r, x11_hotkey(hotkey@, *mapping)) {
            (Ok(a), Ok(b)) => a == b,
            (Err(e), Err(f)) => e@ == f,
            _ => false,
        },
        r matches Ok((mods, _)) ==> mods & RELEVANT_MODS == mods,
{
    proof {
        let parts = split_on(hotkey@, '+');
        lemma_fold_bits(HotkeyPlatform::X11, parts, parts.len());
    }
    let (mods, label) = match split_hotkey(HotkeyPlatform::X11, hotkey) {
        Ok(v) => v,
        Err(e) => return Err(e),
    };
    let keysym = match label_to_keysym(label.as_str()) {
        Some(k) => k,
        None => return Err(HotkeyError::UnsupportedKey(label)),
    };
    match keysym_to_keycode(mapping, keysym) {
        Some(kc) => {
            assert(mods & 77 == mods ==> mods < 128) by (bit_vector);
            let m16 = mods as u16;
            assert(mods & 77 == mods && mods < 128 ==> (mods as u16) & 77 == mods as u16) by (bit_vector);
            Ok((m16, kc))
        },
        None => Err(HotkeyError::NoKeycode(keysym)),
    }
}

/// Parse a macOS hotkey into its event flags and the virtual key code of
/// its key.
pub fn parse_macos_hotkey(hotkey: &str) -> (r: Result<(u64, u16), HotkeyError>)
    ensures
        match (r, macos_hotkey(hotkey@)) {
            (Ok(a), Ok(b)) => a == b,
            (Err(e), Err(f)) => e@ == f,
            _ => false,
        },
        r matches Ok((flags, _)) ==> flags & RELEVANT_FLAGS == flags,
{
    proof {
        let parts = split_on(hotkey@, '+');
        lemma_fold_bits(HotkeyPlatform::MacOs, parts, parts.len());
    }
    let (flags, label) = match split_hotkey(HotkeyPlatform::MacOs, hotkey) {
        Ok(v) => v,
        Err(e) => return Err(e),
    };
    match label_to_macos_keycode(label.as_str()) {
        Some(k) => Ok((flags, k)),
        None => Err(HotkeyError::UnsupportedKey(label)),
    }
}

/// The wire button for a macOS mouse button number: left, right and middle
/// become 1, 3 and 2, back and forward 8 and 9; others stay as they are.
pub open spec fn wire_of_macos_button(b: u8) -> u8 {
    if b == 0 {
        1
    } else if b == 1 {
        3
    } else if b == 2 {
        2
    } else if b == 3 {
        8
    } else if b == 4 {
        9
    } else {
        b
    }
}

/// Map a macOS mouse button number to its wire button.
pub fn macos_button_to_wire(macos_btn: u8) -> (r: u8)
    ensures
        r == wire_of_macos_button(macos_btn),
{
    match macos_btn {
        0 => 1,
        1 => 3,
        2 => 2,
        3 => 8,
        4 => 9,
        other => other,
    }
}

proof fn lemma_split_single(s: Seq<char>, sep: char)
    requires
        forall|i: int| 0 <= i < s.len() ==> s[i] != sep,
    ensures
        split_on(s, sep) == seq![s],
    decreases s.len(),
{
    if s.len() == 0 {
        assert(s =~= Seq::<char>::empty());
    } else {
        lemma_split_single(s.drop_last(), sep);
        assert(s.drop_last().push(s.last()) =~= s);
        assert(seq![s.drop_last()].update(0, s.drop_last().push(s.last())) =~= seq![s]);
    }
}

proof fn lemma_split_append(a: Seq<char>, b: Seq<char>, sep: char)
    requires
        forall|i: int| 0 <= i < b.len() ==> b[i] != sep,
    ensures
        split_on(a + seq![sep] + b, sep) == split_on(a, sep).push(b),
    decreases b.len(),
{
    let s = a + seq![sep] + b;
    if b.len() == 0 {
        assert(s.drop_last() =~= a);
        assert(b =~= Seq::<char>::empty());
    } else {
        lemma_split_append(a, b.drop_last(), sep);
        assert(s.drop_last() =~= a + seq![sep] + b.drop_last());
        assert(b.drop_last().push(b.last()) =~= b);
        let rest = split_on(a, sep).push(b.drop_last());
        assert(rest.update(rest.len() - 1, rest.last().push(s.last())) =~= split_on(a, sep).push(b));
    }
}

/// The Control bit of a platform.
pub open spec fn control_bit(p: HotkeyPlatform) -> u64 {
    match p {
        HotkeyPlatform::X11 => MOD_CONTROL as u64,
        HotkeyPlatform::MacOs => FLAG_CONTROL,
    }
}

/// The Shift bit of a platform.
pub open spec fn shift_bit(p: HotkeyPlatform) -> u64 {
    match p {
        HotkeyPlatform::X11 => MOD_SHIFT as u64,
        HotkeyPlatform::MacOs => FLAG_SHIFT,
    }
}

/// `Ctrl+Shift+<key>` reads as exactly the Control and Shift bits of the
/// platform with that key, for every key that is no modifier name and holds
/// no `+`; on X11 its mask is `MOD_CONTROL | MOD_SHIFT`.
pub proof fn lemma_ctrl_shift_hotkey(p: HotkeyPlatform, key: Seq<char>, m: KeyboardMapping)
    requires
        forall|i: int| 0 <= i < key.len() ==> key[i] != '+',
        modifier_bit(p, trimmed(key)) is None,
    ensures
        hotkey_split(p, "Ctrl+Shift+"@ + key) == Ok::<(u64, Seq<char>), HotkeyFault>(
            (control_bit(p) | shift_bit(p), trimmed(key)),
        ),
        p == HotkeyPlatform::X11 ==> (x11_hotkey("Ctrl+Shift+"@ + key, m) matches Ok((mods, _)) ==> mods
            == MOD_CONTROL | MOD_SHIFT && mods == 5),
{
    reveal_strlit("Ctrl+Shift+");
    reveal_strlit("Ctrl");
    reveal_strlit("Shift");
    reveal_strlit("Alt");
    let ctrl = "Ctrl"@;
    let shift = "Shift"@;
    let whole = "Ctrl+Shift+"@ + key;
    assert(whole =~= (ctrl + seq!['+'] + shift) + seq!['+'] + key);
    lemma_split_single(ctrl, '+');
    lemma_split_append(ctrl, shift, '+');
    lemma_split_append(ctrl + seq!['+'] + shift, key, '+');
    let parts = split_on(whole, '+');
    assert(parts =~= seq![ctrl, shift, key]);
    lemma_trimmed_id(ctrl);
    lemma_trimmed_id(shift);
    assert(trimmed(parts[0]) == ctrl);
    assert(trimmed(parts[1]) == shift);
    assert(modifier_bit(p, ctrl) == Some(control_bit(p)));
    assert(shift.len() == 5 && "Ctrl"@.len() == 4 && "Alt"@.len() == 3);
    assert(shift != "Ctrl"@ && shift != "Alt"@);
    assert(modifier_bit(p, shift) == Some(shift_bit(p)));
    assert(0u64 | 4u64 == 4u64) by (bit_vector);
    assert(0u64 | 0x40000u64 == 0x40000u64) by (bit_vector);
    assert(0u64 | control_bit(p) == control_bit(p));
    assert(fold_parts(p, parts, 0) == Some((0u64, None::<Seq<char>>)));
    assert(fold_parts(p, parts, 1) == Some((control_bit(p), None::<Seq<char>>)));
    assert(fold_parts(p, parts, 2) == Some((control_bit(p) | shift_bit(p), None::<Seq<char>>)));
    assert(fold_parts(p, parts, 3) == Some((control_bit(p) | shift_bit(p), Some(trimmed(key)))));
    assert((0u64 | 4u64) | 1u64 == 5u64) by (bit_vector);
    assert((0u64 | 0x40000u64) | 0x20000u64 == 0x60000u64) by (bit_vector);
    assert(4u64 | 1u64 == 5u64) by (bit_vector);
    assert(0x40000u64 | 0x20000u64 == 0x60000u64) by (bit_vector);
    assert(MOD_CONTROL | MOD_SHIFT == 5u16) by (bit_vector);
}

/// Each modifier name sets its own bit: on X11 `Ctrl` Control, `Alt`
/// Mod1, `Shift` Shift, `Super` and `Meta` Mod4; on macOS `Ctrl`, `Alt`
/// and `Shift` their flags and `Super`, `Meta`, `Cmd` and `Command` the
/// Command flag. So Control, Alt, Shift and the logo key never share a bit.
pub proof fn lemma_modifier_names()
    ensures
        modifier_bit(HotkeyPlatform::X11, "Ctrl"@) == Some(MOD_CONTROL as u64),
        modifier_bit(HotkeyPlatform::X11, "Alt"@) == Some(MOD_M1 as u64),
        modifier_bit(HotkeyPlatform::X11, "Shift"@) == Some(MOD_SHIFT as u64),
        modifier_bit(HotkeyPlatform::X11, "Super"@) == Some(MOD_M4 as u64),
        modifier_bit(HotkeyPlatform::X11, "Meta"@) == Some(MOD_M4 as u64),
        modifier_bit(HotkeyPlatform::MacOs, "Ctrl"@) == Some(FLAG_CONTROL),
        modifier_bit(HotkeyPlatform::MacOs, "Alt"@) == Some(FLAG_ALTERNATE),
        modifier_bit(HotkeyPlatform::MacOs, "Shift"@) == Some(FLAG_SHIFT),
        modifier_bit(HotkeyPlatform::MacOs, "Super"@) == Some(FLAG_COMMAND),
        modifier_bit(HotkeyPlatform::MacOs, "Meta"@) == Some(FLAG_COMMAND),
        modifier_bit(HotkeyPlatform::MacOs, "Cmd"@) == Some(FLAG_COMMAND),
        modifier_bit(HotkeyPlatform::MacOs, "Command"@) == Some(FLAG_COMMAND),
        MOD_CONTROL != MOD_M1 && MOD_CONTROL != MOD_SHIFT && MOD_CONTROL != MOD_M4 && MOD_M1 != MOD_SHIFT
            && MOD_M1 != MOD_M4 && MOD_SHIFT != MOD_M4,
{
    reveal_strlit("Ctrl");
    reveal_strlit("Alt");
    reveal_strlit("Shift");
    reveal_strlit("Super");
    reveal_strlit("Meta");
    reveal_strlit("Cmd");
    reveal_strlit("Command");
    assert("Ctrl"@.len() == 4 && "Alt"@.len() == 3 && "Shift"@.len() == 5 && "Super"@.len() == 5);
    assert("Meta"@.len() == 4 && "Cmd"@.len() == 3 && "Command"@.len() == 7);
    assert("Shift"@[1] != "Super"@[1]);
    assert("Meta"@[0] != "Ctrl"@[0]);
    assert("Cmd"@[0] != "Alt"@[0]);
}

} // verus!

