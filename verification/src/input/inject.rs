//! Commands for the host input injector and their derivation from the
//! tracker's textual actions.

use vstd::prelude::*;
use crate::input::key_names::{key_name_spec, mouse_button_spec, parse_key_name, parse_mouse_button};
use crate::input::key_names::{key_code_name, lemma_key_names_plain, lemma_m_name_not_key, lemma_named_key_roundtrip, named_key_code};
use crate::session::{
    evdev_name_spec, lemma_evdev_name_roundtrip, mouse_name, press_text, press_unprompted_text,
    release_lost_text, release_text, release_timeout_text, repeat_text,
};
use crate::text::{
    before_paren, decimal, has_prefix, is_digit, is_ws, lemma_before_paren_prefix,
    lemma_decimal, lemma_digits_plain, lemma_parse_decimal, lemma_plain_no_sep,
    lemma_plain_word_chars, lemma_plain_word_concat, lemma_trimmed_id, no_paren_sep,
    plain_word, split_before_paren, strip_prefix, trim, trimmed,
};

verus! {

/// Commands sent to the injector worker.
#[allow(inconsistent_fields)]
#[derive(Debug, Clone, Copy, PartialEq, Eq)]
pub enum InjectCmd {
    MouseAbs { x: i32, y: i32 },
    MouseRel { dx: i32, dy: i32 },
    KeyDown { code: u16 },
    KeyUp { code: u16 },
    ButtonDown { code: u16 },
    ButtonUp { code: u16 },
    Wheel { dx: i8, dy: i8 },
}

/// The Linux evdev button code for a wire-protocol mouse button number.
pub open spec fn linux_button(wire: u8) -> u16 {
    if wire == 1 {
        0x110
    } else if wire == 2 {
        0x112
    } else if wire == 3 {
        0x111
    } else if wire == 8 {
        0x113
    } else if wire == 9 {
        0x114
    } else if wire == 0 {
        0x110
    } else {
        (0x110 + wire - 1) as u16
    }
}

/// Convert a wire-protocol mouse button number to a Linux evdev button code
/// (`BTN_LEFT`, `BTN_MIDDLE`, `BTN_RIGHT`, `BTN_SIDE`, `BTN_EXTRA`, and
/// `BTN_LEFT + n - 1` for other numbers).
pub fn wire_to_linux_button(wire: u8) -> (code: u16)
    ensures
        code == linux_button(wire),
{
    match wire {
        1 => 0x110,
        2 => 0x112,
        3 => 0x111,
        8 => 0x113,
        9 => 0x114,
        other => 0x110 + (if other == 0 { 0u16 } else { (other - 1) as u16 }),
    }
}

/// The key or button named in the body of an action (after the verb): the
/// text before any parenthesised note, trimmed.
pub open spec fn action_target(rest: Seq<char>) -> Seq<char> {
    trimmed(before_paren(rest))
}

/// The command for a press (`down`) or release of a named key or button.
pub open spec fn target_command(name: Seq<char>, down: bool) -> Option<InjectCmd> {
    match key_name_spec(name) {
        Some(code) => Some(if down { InjectCmd::KeyDown { code } } else { InjectCmd::KeyUp { code } }),
        None => match mouse_button_spec(name) {
            Some(b) => Some(
                if down {
                    InjectCmd::ButtonDown { code: linux_button(b) }
                } else {
                    InjectCmd::ButtonUp { code: linux_button(b) }
                },
            ),
            None => None,
        },
    }
}

/// The command that a tracker action asks for: `press NAME ...` and
/// `release NAME ...` give key or button commands; anything else (such as
/// `repeat`) gives none.
pub open spec fn action_command(action: Seq<char>) -> Option<InjectCmd> {
    let a = trimmed(action);
    if has_prefix(a, "press "@) {
        target_command(action_target(a.skip("press "@.len() as int)), true)
    } else if has_prefix(a, "release "@) {
        target_command(action_target(a.skip("release "@.len() as int)), false)
    } else {
        None
    }
}

fn command_for(name: &str, down: bool) -> (r: Option<InjectCmd>)
    ensures
        r == target_command(name@, down),
{
    if let Some(code) = parse_key_name(name) {
        Some(if down { InjectCmd::KeyDown { code } } else { InjectCmd::KeyUp { code } })
    } else if let Some(btn) = parse_mouse_button(name) {
        let code = wire_to_linux_button(btn);
        Some(if down { InjectCmd::ButtonDown { code } } else { InjectCmd::ButtonUp { code } })
    } else {
        None
    }
}

impl InjectCmd {
    /// The command that a textual tracker action asks the injector for, as
    /// used for releases on timeout; repeat actions are heartbeats and ask
    /// for nothing.
    pub fn from_action(action: &str) -> (r: Option<InjectCmd>)
        ensures
            r == action_command(action@),
    {
        let action = trim(action);
        if let Some(rest) = strip_prefix(action, "press ") {
            let name = trim(split_before_paren(rest));
            command_for(name, true)
        } else if let Some(rest) = strip_prefix(action, "release ") {
            let name = trim(split_before_paren(rest));
            command_for(name, false)
        } else {
            None
        }
    }
}


// ---------------------------------------------------------------------------
// Tracker actions reach the injector
// ---------------------------------------------------------------------------

/// A name fit to stand in an action: non-empty, no `" ("`, and no
/// whitespace at either end.
pub open spec fn action_word(w: Seq<char>) -> bool {
    &&& w.len() > 1
    &&& no_paren_sep(w)
    &&& !is_ws(w[0])
    &&& !is_ws(w.last())
}

proof fn lemma_no_sep_concat(a: Seq<char>, b: Seq<char>)
    requires
        no_paren_sep(a),
        no_paren_sep(b),
        a.len() == 0 || b.len() == 0 || !(a.last() == ' ' && b[0] == '('),
    ensures
        no_paren_sep(a + b),
{
    let u = a + b;
    assert forall|i: int| 0 <= i < u.len() - 1 implies !(#[trigger] u[i] == ' ' && u[i + 1]
        == '(') by {
        if i < a.len() - 1 {
            assert(u[i] == a[i] && u[i + 1] == a[i + 1]);
        } else if i == a.len() - 1 {
            assert(u[i] == a.last() && u[i + 1] == b[0]);
        } else {
            assert(u[i] == b[i - a.len()] && u[i + 1] == b[i - a.len() + 1]);
        }
    }
}

proof fn lemma_evdev_name_word(code: u16)
    ensures
        action_word(evdev_name_spec(code)),
{
    let w = evdev_name_spec(code);
    match key_code_name(code) {
        Some(n) => {
            lemma_key_names_plain(code);
            lemma_named_key_roundtrip(code);
            assert(named_key_code(n) is Some ==> n.len() > 1);
        },
        None => {
            assert(plain_word("evdev:"@)) by {
                reveal_strlit("evdev:");
                reveal_with_fuel(plain_word, 7);
            }
            lemma_decimal(code as nat);
            lemma_digits_plain(decimal(code as nat));
            lemma_plain_word_concat("evdev:"@, decimal(code as nat));
            reveal_strlit("evdev:");
        },
    }
    lemma_plain_no_sep(w);
    lemma_plain_word_chars(w);
    assert(w[0] != ' ' && !is_ws(w[0]));
    assert(w[w.len() - 1] != ' ' && !is_ws(w[w.len() - 1]));
}

proof fn lemma_mouse_name_word(b: u8)
    ensures
        action_word(mouse_name(b)),
        mouse_name(b)[0] == 'm',
        mouse_button_spec(mouse_name(b)) == Some(b),
        key_name_spec(mouse_name(b)) is None,
{
    let d = decimal(b as nat);
    let w = mouse_name(b);
    reveal_strlit("mouse ");
    lemma_decimal(b as nat);
    lemma_digits_plain(d);
    lemma_plain_no_sep(d);
    lemma_plain_word_chars(d);
    assert(no_paren_sep("mouse "@)) by {
        assert forall|i: int| 0 <= i < "mouse "@.len() - 1 implies !(#[trigger] "mouse "@[i]
            == ' ' && "mouse "@[i + 1] == '(') by {
            assert(i == 0 || i == 1 || i == 2 || i == 3 || i == 4);
        }
    }
    assert(is_digit(d[0]));
    lemma_no_sep_concat("mouse "@, d);
    assert(w[0] == 'm');
    assert(w.last() == d.last());
    assert(d.last() == d[d.len() - 1]);
    lemma_m_name_not_key(w);
    assert(w.take(6) =~= "mouse "@);
    assert(w.skip(6) =~= d);
    lemma_trimmed_id(d);
    lemma_parse_decimal(b as nat, 255);
}

proof fn lemma_paren_suffix_empty(sfx: Seq<char>)
    requires
        sfx.len() >= 2,
        sfx[0] == ' ',
        sfx[1] == '(',
    ensures
        before_paren(sfx) == Seq::<char>::empty(),
{
}

/// The command of `verb + w + sfx` where the verb is `press ` or `release `
/// and the suffix is empty or a parenthesised note.
proof fn lemma_action_shape(verb: Seq<char>, w: Seq<char>, sfx: Seq<char>, down: bool)
    requires
        verb == (if down { "press "@ } else { "release "@ }),
        action_word(w),
        sfx.len() == 0 || (sfx.len() >= 2 && sfx[0] == ' ' && sfx[1] == '(' && sfx.last() == ')'),
    ensures
        action_command(verb + w + sfx) == target_command(w, down),
{
    reveal_strlit("press ");
    reveal_strlit("release ");
    let a = verb + w + sfx;
    assert(a[0] == verb[0]);
    if sfx.len() == 0 {
        assert(a.last() == w.last());
        assert(a =~= verb + w);
    } else {
        assert(a.last() == sfx.last());
    }
    lemma_trimmed_id(a);
    assert(a.skip(verb.len() as int) =~= w + sfx);
    assert(a.take(verb.len() as int) =~= verb);
    if !down {
        assert(a.take(6)[0] == 'r');
    }
    lemma_before_paren_prefix(w, sfx);
    if sfx.len() > 0 {
        lemma_paren_suffix_empty(sfx);
    }
    assert(w + before_paren(sfx) =~= w);
    lemma_trimmed_id(w);
}

/// Every press and release that the key tracker reports for a key is turned
/// by the injector into a key press or release of that same scancode, and
/// a repeat heartbeat into no command.
pub proof fn lemma_key_actions_reach_injector(code: u16)
    ensures
        InjectCmd::from_action_spec(press_text(evdev_name_spec(code))) == Some(InjectCmd::KeyDown { code }),
        InjectCmd::from_action_spec(press_unprompted_text(evdev_name_spec(code))) == Some(InjectCmd::KeyDown { code }),
        InjectCmd::from_action_spec(release_text(evdev_name_spec(code))) == Some(InjectCmd::KeyUp { code }),
        InjectCmd::from_action_spec(release_lost_text(evdev_name_spec(code))) == Some(InjectCmd::KeyUp { code }),
        InjectCmd::from_action_spec(release_timeout_text(evdev_name_spec(code))) == Some(InjectCmd::KeyUp { code }),
        InjectCmd::from_action_spec(repeat_text(evdev_name_spec(code))) is None,
{
    let w = evdev_name_spec(code);
    lemma_evdev_name_word(code);
    lemma_evdev_name_roundtrip(code);
    reveal_strlit("");
    reveal_strlit(" (lost up)");
    reveal_strlit(" (timeout)");
    reveal_strlit(" (repeat without prior down)");
    assert(press_text(w) =~= "press "@ + w + ""@);
    assert(release_text(w) =~= "release "@ + w + ""@);
    lemma_action_shape("press "@, w, ""@, true);
    lemma_action_shape("press "@, w, " (repeat without prior down)"@, true);
    lemma_action_shape("release "@, w, ""@, false);
    lemma_action_shape("release "@, w, " (lost up)"@, false);
    lemma_action_shape("release "@, w, " (timeout)"@, false);
    lemma_repeat_no_command(w);
}

/// Every press and release that the key tracker reports for a mouse button
/// is turned by the injector into a press or release of the matching Linux
/// button code, and a repeat heartbeat into no command.
pub proof fn lemma_button_actions_reach_injector(b: u8)
    ensures
        InjectCmd::from_action_spec(press_text(mouse_name(b))) == Some(InjectCmd::ButtonDown { code: linux_button(b) }),
        InjectCmd::from_action_spec(press_unprompted_text(mouse_name(b))) == Some(InjectCmd::ButtonDown { code: linux_button(b) }),
        InjectCmd::from_action_spec(release_text(mouse_name(b))) == Some(InjectCmd::ButtonUp { code: linux_button(b) }),
        InjectCmd::from_action_spec(release_lost_text(mouse_name(b))) == Some(InjectCmd::ButtonUp { code: linux_button(b) }),
        InjectCmd::from_action_spec(release_timeout_text(mouse_name(b))) == Some(InjectCmd::ButtonUp { code: linux_button(b) }),
        InjectCmd::from_action_spec(repeat_text(mouse_name(b))) is None,
{
    let w = mouse_name(b);
    lemma_mouse_name_word(b);
    reveal_strlit("");
    reveal_strlit(" (lost up)");
    reveal_strlit(" (timeout)");
    reveal_strlit(" (repeat without prior down)");
    assert(press_text(w) =~= "press "@ + w + ""@);
    assert(release_text(w) =~= "release "@ + w + ""@);
    lemma_action_shape("press "@, w, ""@, true);
    lemma_action_shape("press "@, w, " (repeat without prior down)"@, true);
    lemma_action_shape("release "@, w, ""@, false);
    lemma_action_shape("release "@, w, " (lost up)"@, false);
    lemma_action_shape("release "@, w, " (timeout)"@, false);
    lemma_repeat_no_command(w);
}

/// An action that, trimmed, begins with `repeat ` is a heartbeat: the
/// injector is asked for no command.
pub proof fn lemma_repeat_actions_ignored(action: Seq<char>)
    requires
        has_prefix(trimmed(action), "repeat "@),
    ensures
        InjectCmd::from_action_spec(action) is None,
{
    reveal_strlit("repeat ");
    reveal_strlit("press ");
    reveal_strlit("release ");
    let a = trimmed(action);
    assert(a.take(7)[0] == 'r' && a.take(7)[2] == 'p');
    assert(a[0] == 'r' && a[2] == 'p');
    if has_prefix(a, "press "@) {
        assert(a.take(6)[0] == 'p');
    }
    if has_prefix(a, "release "@) {
        assert(a.take(8)[2] == 'l');
    }
}

proof fn lemma_repeat_no_command(w: Seq<char>)
    requires
        action_word(w),
    ensures
        action_command(repeat_text(w)) is None,
{
    reveal_strlit("repeat ");
    reveal_strlit("press ");
    reveal_strlit("release ");
    let a = repeat_text(w);
    assert(a[0] == 'r');
    assert(a.last() == w.last());
    lemma_trimmed_id(a);
    assert(a.take(6)[0] == 'r');
    assert(a.take(8)[2] == 'p');
    assert("release "@[2] == 'l');
}

impl InjectCmd {
    /// Spec view of `from_action`.
    pub open spec fn from_action_spec(action: Seq<char>) -> Option<InjectCmd> {
        action_command(action)
    }
}

/// The macOS mouse event posted for a button.
#[derive(Debug, Clone, Copy, PartialEq, Eq, Structural)]
pub enum MacMouseEventType {
    LeftMouseDown,
    LeftMouseUp,
    RightMouseDown,
    RightMouseUp,
    OtherMouseDown,
    OtherMouseUp,
}

/// How the posted macOS event names its button: as one of the three
/// buttons, or by number in the event's button-number field.
#[derive(Debug, Clone, Copy, PartialEq, Eq, Structural)]
pub enum MacMouseButton {
    Left,
    Right,
    Center,
    Number(i64),
}

/// The macOS event for a wire button (taken modulo 256) going down or up:
/// left, right and middle have their own; any other button is an
/// other-button event carrying its number.
pub open spec fn mac_mouse_event_spec(wire: u16, pressed: bool) -> (MacMouseEventType, MacMouseButton) {
    let b = (wire % 256) as u8;
    if b == 1 {
        (if pressed { MacMouseEventType::LeftMouseDown } else { MacMouseEventType::LeftMouseUp }, MacMouseButton::Left)
    } else if b == 3 {
        (if pressed { MacMouseEventType::RightMouseDown } else { MacMouseEventType::RightMouseUp }, MacMouseButton::Right)
    } else if b == 2 {
        (if pressed { MacMouseEventType::OtherMouseDown } else { MacMouseEventType::OtherMouseUp }, MacMouseButton::Center)
    } else {
        (
            if pressed { MacMouseEventType::OtherMouseDown } else { MacMouseEventType::OtherMouseUp },
            MacMouseButton::Number(b as i64),
        )
    }
}

/// The macOS event that injects a button command.
pub fn mac_mouse_event(wire: u16, pressed: bool) -> (r: (MacMouseEventType, MacMouseButton))
    ensures
        r == mac_mouse_event_spec(wire, pressed),
{
    let b = (wire % 256) as u8;
    let down_up = |d: MacMouseEventType, u: MacMouseEventType| -> (t: MacMouseEventType)
        ensures
            t == (if pressed { d } else { u }),
        {
            if pressed {
                d
            } else {
                u
            }
        };
    if b == 1 {
        (down_up(MacMouseEventType::LeftMouseDown, MacMouseEventType::LeftMouseUp), MacMouseButton::Left)
    } else if b == 3 {
        (down_up(MacMouseEventType::RightMouseDown, MacMouseEventType::RightMouseUp), MacMouseButton::Right)
    } else if b == 2 {
        (down_up(MacMouseEventType::OtherMouseDown, MacMouseEventType::OtherMouseUp), MacMouseButton::Center)
    } else {
        (down_up(MacMouseEventType::OtherMouseDown, MacMouseEventType::OtherMouseUp), MacMouseButton::Number(b as i64))
    }
}

/// The scroll-wheel fields of a macOS wheel event for a wheel command:
/// axis 1 is vertical, axis 2 horizontal.
pub fn mac_scroll_axes(dx: i8, dy: i8) -> (r: (i64, i64))
    ensures
        r == (dy as i64, dx as i64),
{
    (dy as i64, dx as i64)
}

/// Linux input event types and codes that the injector writes.
pub const EV_SYN: u16 = 0;
pub const EV_KEY: u16 = 1;
pub const EV_REL: u16 = 2;
pub const SYN_REPORT: u16 = 0;
pub const REL_HWHEEL: u16 = 6;
pub const REL_WHEEL: u16 = 8;

/// The input events (type, code, value) that press (`value` 1) or release
/// (`value` 0) a key or button, then report.
pub fn linux_key_events(code: u16, value: i32) -> (r: Vec<(u16, u16, i32)>)
    ensures
        r@ == seq![(EV_KEY, code, value), (EV_SYN, SYN_REPORT, 0i32)],
{
    let mut r: Vec<(u16, u16, i32)> = Vec::new();
    r.push((EV_KEY, code, value));
    r.push((EV_SYN, SYN_REPORT, 0));
    r
}

/// The input events that scroll: the vertical wheel by `dy` and the
/// horizontal wheel by `dx`, each only where it moves, then a report.
pub fn linux_wheel_events(dx: i8, dy: i8) -> (r: Vec<(u16, u16, i32)>)
    ensures
        r@ == (if dy != 0 { seq![(EV_REL, REL_WHEEL, dy as i32)] } else { Seq::empty() })
            + (if dx != 0 { seq![(EV_REL, REL_HWHEEL, dx as i32)] } else { Seq::empty() })
            + seq![(EV_SYN, SYN_REPORT, 0i32)],
{
    let mut r: Vec<(u16, u16, i32)> = Vec::new();
    if dy != 0 {
        r.push((EV_REL, REL_WHEEL, dy as i32));
    }
    if dx != 0 {
        r.push((EV_REL, REL_HWHEEL, dx as i32));
    }
    r.push((EV_SYN, SYN_REPORT, 0));
    assert(r@ =~= (if dy != 0 { seq![(EV_REL, REL_WHEEL, dy as i32)] } else { Seq::empty() })
        + (if dx != 0 { seq![(EV_REL, REL_HWHEEL, dx as i32)] } else { Seq::empty() })
        + seq![(EV_SYN, SYN_REPORT, 0i32)]);
    r
}

} // verus!
