//! Per-session server state: the table of held keys and mouse buttons that
//! are released when their heartbeats stop, and session bookkeeping.

use vstd::prelude::*;
use vstd::string::StringExecFns;
use std::collections::HashMap;
use std::collections::VecDeque;
use std::time::Instant;
use vstd::std_specs::iter::IteratorSpec;

use crate::crypto::{hkdf_expand, hkdf_sha256, pow256, random_bytes, ReplayWindow};
use crate::input::key_names::{key_code_name, key_name_of, key_name_spec, lemma_named_key_roundtrip};
use crate::net::Event;
use crate::text::{decimal, has_prefix, lemma_parse_decimal, push_decimal};

verus! {

broadcast use vstd::std_specs::hash::group_hash_axioms;

/// A point in time read from the monotonic clock; Verus sees nothing inside.
#[verifier::external_type_specification]
#[verifier::external_body]
pub struct ExInstant(std::time::Instant);

/// Reads the monotonic clock with `std::time::Instant::now`; nothing is
/// stated of the result.
#[verifier::external_body]
pub(crate) fn instant_now() -> Instant {
    Instant::now()
}

/// Nanoseconds elapsed since `epoch`, read with `Instant::elapsed`. The value
/// depends on the clock, so nothing is stated of it.
#[verifier::external_body]
pub(crate) fn nanos_since(epoch: &Instant) -> u64 {
    epoch.elapsed().as_nanos() as u64
}

/// The name shown for an evdev scancode: its key name, or `evdev:N`.
pub open spec fn evdev_name_spec(code: u16) -> Seq<char> {
    match key_code_name(code) {
        Some(n) => n,
        None => "evdev:"@ + decimal(code as nat),
    }
}

/// The name under which a mouse button appears in actions.
pub open spec fn mouse_name(button: u8) -> Seq<char> {
    "mouse "@ + decimal(button as nat)
}

pub open spec fn press_text(n: Seq<char>) -> Seq<char> {
    "press "@ + n
}

pub open spec fn release_text(n: Seq<char>) -> Seq<char> {
    "release "@ + n
}

pub open spec fn repeat_text(n: Seq<char>) -> Seq<char> {
    "repeat "@ + n
}

pub open spec fn release_lost_text(n: Seq<char>) -> Seq<char> {
    "release "@ + n + " (lost up)"@
}

pub open spec fn press_unprompted_text(n: Seq<char>) -> Seq<char> {
    "press "@ + n + " (repeat without prior down)"@
}

pub open spec fn release_timeout_text(n: Seq<char>) -> Seq<char> {
    "release "@ + n + " (timeout)"@
}

/// Return a human-readable name for an evdev scancode.
pub fn evdev_name(code: u16) -> (s: String)
    ensures
        s@ == evdev_name_spec(code),
{
    match key_name_of(code) {
        Some(n) => String::from_str(n),
        None => {
            let mut s = String::from_str("evdev:");
            push_decimal(&mut s, code as u64);
            s
        },
    }
}

fn mouse_label(button: u8) -> (s: String)
    ensures
        s@ == mouse_name(button),
{
    let mut s = String::from_str("mouse ");
    push_decimal(&mut s, button as u64);
    s
}

pub(crate) fn text_with(prefix: &str, name: &String, suffix: &str) -> (s: String)
    ensures
        s@ == prefix@ + name@ + suffix@,
{
    let mut s = String::from_str(prefix);
    s.append(name.as_str());
    s.append(suffix);
    s
}

/// View of the tracker: held keys and held mouse buttons, each with the time
/// (in nanoseconds on the tracker's clock) of its last press or heartbeat, and
/// the release timeout in nanoseconds.
#[verifier::ext_equal]
pub struct TrackerView {
    pub keys: Map<u16, u64>,
    pub buttons: Map<u8, u64>,
    pub timeout: u64,
}

/// Tracks held keys and mouse buttons, releasing them on timeout.
pub struct KeyTracker {
    keys: HashMap<u16, u64>,
    mouse_buttons: HashMap<u8, u64>,
    timeout: u64,
    epoch: Instant,
}

impl View for KeyTracker {
    type V = TrackerView;

    closed spec fn view(&self) -> TrackerView {
        TrackerView { keys: self.keys@, buttons: self.mouse_buttons@, timeout: self.timeout }
    }
}

/// The actions that handling `e` reports, and the new held sets, at time `now`.
pub open spec fn tracker_step(v: TrackerView, e: Event, now: u64) -> (Seq<Seq<char>>, TrackerView) {
    match e {
        Event::KeyDown(code, _) => {
            let n = evdev_name_spec(code);
            let pre = if v.keys.contains_key(code) {
                seq![release_lost_text(n)]
            } else {
                Seq::empty()
            };
            (pre.push(press_text(n)), TrackerView { keys: v.keys.insert(code, now), ..v })
        },
        Event::KeyRepeat(code, _) => {
            let n = evdev_name_spec(code);
            let a = if v.keys.contains_key(code) {
                repeat_text(n)
            } else {
                press_unprompted_text(n)
            };
            (seq![a], TrackerView { keys: v.keys.insert(code, now), ..v })
        },
        Event::KeyUp(code, _) => {
            if v.keys.contains_key(code) {
                (
                    seq![release_text(evdev_name_spec(code))],
                    TrackerView { keys: v.keys.remove(code), ..v },
                )
            } else {
                (Seq::empty(), v)
            }
        },
        Event::MouseButton { button, pressed } => {
            let n = mouse_name(button);
            if pressed {
                let pre = if v.buttons.contains_key(button) {
                    seq![release_lost_text(n)]
                } else {
                    Seq::empty()
                };
                (
                    pre.push(press_text(n)),
                    TrackerView { buttons: v.buttons.insert(button, now), ..v },
                )
            } else if v.buttons.contains_key(button) {
                (seq![release_text(n)], TrackerView { buttons: v.buttons.remove(button), ..v })
            } else {
                (Seq::empty(), v)
            }
        },
        Event::MouseButtonRepeat(button) => {
            let n = mouse_name(button);
            let a = if v.buttons.contains_key(button) {
                repeat_text(n)
            } else {
                press_unprompted_text(n)
            };
            (seq![a], TrackerView { buttons: v.buttons.insert(button, now), ..v })
        },
        _ => (Seq::empty(), v),
    }
}

/// Whether an entry last refreshed at `last` has timed out at `now`: the
/// elapsed time (zero if the clock reads earlier) exceeds the timeout.
pub open spec fn timed_out(last: u64, now: u64, timeout: u64) -> bool {
    now > last && now - last > timeout
}

/// The held keys that have not timed out at `now`.
pub open spec fn keys_kept(v: TrackerView, now: u64) -> Map<u16, u64> {
    v.keys.restrict(v.keys.dom().filter(|k: u16| !timed_out(v.keys[k], now, v.timeout)))
}

/// The held buttons that have not timed out at `now`.
pub open spec fn buttons_kept(v: TrackerView, now: u64) -> Map<u8, u64> {
    v.buttons.restrict(v.buttons.dom().filter(|b: u8| !timed_out(v.buttons[b], now, v.timeout)))
}

/// The outcome of a sweep at time `now`: every timed-out key and button is
/// dropped and reported once (keys first, in some order, then buttons).
pub open spec fn sweep_outcome(v: TrackerView, now: u64, actions: Seq<Seq<char>>, v2: TrackerView) -> bool {
    &&& v2.keys == keys_kept(v, now)
    &&& v2.buttons == buttons_kept(v, now)
    &&& v2.timeout == v.timeout
    &&& exists|ks: Seq<u16>, bs: Seq<u8>|
        {
            &&& ks.no_duplicates()
            &&& ks.to_set() == v.keys.dom().filter(|k: u16| timed_out(v.keys[k], now, v.timeout))
            &&& bs.no_duplicates()
            &&& bs.to_set() == v.buttons.dom().filter(
                |b: u8| timed_out(v.buttons[b], now, v.timeout),
            )
            &&& actions == ks.map_values(|k: u16| release_timeout_text(evdev_name_spec(k)))
                + bs.map_values(|b: u8| release_timeout_text(mouse_name(b)))
        }
}

/// View of a list of action strings.
pub open spec fn texts(v: Seq<String>) -> Seq<Seq<char>> {
    v.map_values(|s: String| s@)
}

impl KeyTracker {
    pub fn has_key(&self, code: u16) -> (r: bool)
        ensures
            r == self@.keys.contains_key(code),
    {
        self.keys.contains_key(&code)
    }

    pub fn has_button(&self, button: u8) -> (r: bool)
        ensures
            r == self@.buttons.contains_key(button),
    {
        self.mouse_buttons.contains_key(&button)
    }

    pub fn new(timeout_ms: u16) -> (t: Self)
        ensures
            t@.keys == Map::<u16, u64>::empty(),
            t@.buttons == Map::<u8, u64>::empty(),
            t@.timeout == timeout_ms as nat * 1_000_000,
    {
        Self {
            keys: HashMap::new(),
            mouse_buttons: HashMap::new(),
            timeout: timeout_ms as u64 * 1_000_000,
            epoch: instant_now(),
        }
    }

    /// Process a single event at time `now` (nanoseconds on the tracker's
    /// clock) and return the actions taken.
    pub fn handle_event_at(&mut self, event: &Event, now: u64) -> (actions: Vec<String>)
        ensures
            texts(actions@) == tracker_step(old(self)@, *event, now).0,
            final(self)@ == tracker_step(old(self)@, *event, now).1,
    {
        let mut actions: Vec<String> = Vec::new();
        match *event {
            Event::KeyDown(code, _) => {
                let name = evdev_name(code);
                if self.keys.contains_key(&code) {
                    actions.push(text_with("release ", &name, " (lost up)"));
                }
                actions.push(text_with("press ", &name, ""));
                self.keys.insert(code, now);
            },
            Event::KeyRepeat(code, _) => {
                let name = evdev_name(code);
                if self.keys.contains_key(&code) {
                    actions.push(text_with("repeat ", &name, ""));
                } else {
                    actions.push(text_with("press ", &name, " (repeat without prior down)"));
                }
                self.keys.insert(code, now);
            },
            Event::KeyUp(code, _) => {
                if self.keys.remove(&code).is_some() {
                    let name = evdev_name(code);
                    actions.push(text_with("release ", &name, ""));
                }
            },
            Event::MouseButton { button, pressed } => {
                let name = mouse_label(button);
                if pressed {
                    if self.mouse_buttons.contains_key(&button) {
                        actions.push(text_with("release ", &name, " (lost up)"));
                    }
                    actions.push(text_with("press ", &name, ""));
                    self.mouse_buttons.insert(button, now);
                } else if self.mouse_buttons.remove(&button).is_some() {
                    actions.push(text_with("release ", &name, ""));
                }
            },
            Event::MouseButtonRepeat(button) => {
                let name = mouse_label(button);
                if self.mouse_buttons.contains_key(&button) {
                    actions.push(text_with("repeat ", &name, ""));
                } else {
                    actions.push(text_with("press ", &name, " (repeat without prior down)"));
                }
                self.mouse_buttons.insert(button, now);
            },
            _ => {},
        }
        proof {
            reveal_strlit("");
            assert(texts(actions@) =~= tracker_step(old(self)@, *event, now).0);
            assert(self@ =~= tracker_step(old(self)@, *event, now).1);
        }
        actions
    }

    /// Process a single event at the current time and return the actions taken.
    pub fn handle_event(&mut self, event: &Event) -> (actions: Vec<String>)
        ensures
            exists|now: u64| (texts(actions@), final(self)@) == tracker_step(old(self)@, *event, now),
    {
        let now = nanos_since(&self.epoch);
        self.handle_event_at(event, now)
    }

    /// The held keys whose last refresh is older than the timeout at `now`.
    fn expired_keys(&self, now: u64) -> (ks: Vec<u16>)
        ensures
            ks@.no_duplicates(),
            ks@.to_set() == self@.keys.dom().filter(
                |k: u16| timed_out(self@.keys[k], now, self@.timeout),
            ),
    {
        let ghost v = self@;
        let mut ks: Vec<u16> = Vec::new();
        let ghost sq = vstd::std_specs::hash::spec_keys_iter(&self.keys).remaining();
        proof {
            vstd::std_specs::hash::axiom_spec_keys_iter(&self.keys);
        }
        for k in it: self.keys.keys()
            invariant
                v == self@,
                it.seq() == sq,
                sq.no_duplicates(),
                sq.unref().to_set() == v.keys.dom(),
                ks@.no_duplicates(),
                forall|x: u16|
                    ks@.contains(x) <==> (exists|j: int|
                        0 <= j < it.index() && *it.seq()[j] == x) && timed_out(
                        v.keys[x],
                        now,
                        v.timeout,
                    ),
        {
            let ghost idx = it.index();
            let ghost old_ks = ks@;
            proof {
                assert(*sq[idx] == *k);
                assert(sq.unref()[idx] == *k);
                assert(sq.unref().to_set().contains(*k));
            }
            let last = *self.keys.get(k).unwrap();
            assert(last == v.keys[*k]);
            if now > last && now - last > self.timeout {
                proof {
                    if old_ks.contains(*k) {
                        let j = choose|j: int| 0 <= j < idx && *sq[j] == *k;
                        assert(sq[j] == sq[idx]);
                    }
                }
                ks.push(*k);
            }
            proof {
                assert forall|x: u16|
                    ks@.contains(x) <==> (exists|j: int| 0 <= j < idx + 1 && *sq[j] == x)
                        && timed_out(v.keys[x], now, v.timeout) by {
                    if x == *k {
                        assert(*sq[idx] == x);
                        if timed_out(v.keys[x], now, v.timeout) {
                            assert(ks@.last() == x);
                            assert(ks@[ks@.len() - 1] == x);
                        } else {
                            if old_ks.contains(x) {
                                let j = choose|j: int| 0 <= j < idx && *sq[j] == x;
                                assert(sq[j] == sq[idx]);
                            }
                            assert(!ks@.contains(x));
                        }
                    } else {
                        if ks@.contains(x) {
                            let i = choose|i: int| 0 <= i < ks@.len() && ks@[i] == x;
                            assert(old_ks.contains(x)) by {
                                assert(i < old_ks.len());
                                assert(old_ks[i] == x);
                            }
                            let j = choose|j: int| 0 <= j < idx && *sq[j] == x;
                            assert(0 <= j < idx + 1 && *sq[j] == x);
                        }
                        if (exists|j: int| 0 <= j < idx + 1 && *sq[j] == x) && timed_out(
                            v.keys[x],
                            now,
                            v.timeout,
                        ) {
                            let j = choose|j: int| 0 <= j < idx + 1 && *sq[j] == x;
                            assert(j != idx);
                            assert(old_ks.contains(x));
                            let i = choose|i: int| 0 <= i < old_ks.len() && old_ks[i] == x;
                            assert(ks@[i] == x);
                        }
                    }
                }
            }
        }
        proof {
            let target = v.keys.dom().filter(|k: u16| timed_out(v.keys[k], now, v.timeout));
            assert forall|x: u16| ks@.to_set().contains(x) <==> target.contains(x) by {
                if target.contains(x) {
                    assert(sq.unref().to_set().contains(x));
                    assert(sq.unref().contains(x));
                    let j = choose|j: int| 0 <= j < sq.unref().len() && sq.unref()[j] == x;
                    assert(*sq[j] == x);
                    assert(ks@.contains(x));
                }
                if ks@.to_set().contains(x) {
                    assert(ks@.contains(x));
                    let j = choose|j: int| 0 <= j < sq.len() && *sq[j] == x;
                    assert(sq.unref()[j] == x);
                    assert(sq.unref().contains(x));
                    assert(sq.unref().to_set().contains(x));
                }
            }
            assert(ks@.to_set() =~= target);
        }
        ks
    }

    /// The held mouse buttons whose last refresh is older than the timeout at `now`.
    fn expired_buttons(&self, now: u64) -> (ks: Vec<u8>)
        ensures
            ks@.no_duplicates(),
            ks@.to_set() == self@.buttons.dom().filter(
                |k: u8| timed_out(self@.buttons[k], now, self@.timeout),
            ),
    {
        let ghost v = self@;
        let mut ks: Vec<u8> = Vec::new();
        let ghost sq = vstd::std_specs::hash::spec_keys_iter(&self.mouse_buttons).remaining();
        proof {
            vstd::std_specs::hash::axiom_spec_keys_iter(&self.mouse_buttons);
        }
        for k in it: self.mouse_buttons.keys()
            invariant
                v == self@,
                it.seq() == sq,
                sq.no_duplicates(),
                sq.unref().to_set() == v.buttons.dom(),
                ks@.no_duplicates(),
                forall|x: u8|
                    ks@.contains(x) <==> (exists|j: int|
                        0 <= j < it.index() && *it.seq()[j] == x) && timed_out(
                        v.buttons[x],
                        now,
                        v.timeout,
                    ),
        {
            let ghost idx = it.index();
            let ghost old_ks = ks@;
            proof {
                assert(*sq[idx] == *k);
                assert(sq.unref()[idx] == *k);
                assert(sq.unref().to_set().contains(*k));
            }
            let last = *self.mouse_buttons.get(k).unwrap();
            assert(last == v.buttons[*k]);
            if now > last && now - last > self.timeout {
                proof {
                    if old_ks.contains(*k) {
                        let j = choose|j: int| 0 <= j < idx && *sq[j] == *k;
                        assert(sq[j] == sq[idx]);
                    }
                }
                ks.push(*k);
            }
            proof {
                assert forall|x: u8|
                    ks@.contains(x) <==> (exists|j: int| 0 <= j < idx + 1 && *sq[j] == x)
                        && timed_out(v.buttons[x], now, v.timeout) by {
                    if x == *k {
                        assert(*sq[idx] == x);
                        if timed_out(v.buttons[x], now, v.timeout) {
                            assert(ks@.last() == x);
                            assert(ks@[ks@.len() - 1] == x);
                        } else {
                            if old_ks.contains(x) {
                                let j = choose|j: int| 0 <= j < idx && *sq[j] == x;
                                assert(sq[j] == sq[idx]);
                            }
                            assert(!ks@.contains(x));
                        }
                    } else {
                        if ks@.contains(x) {
                            let i = choose|i: int| 0 <= i < ks@.len() && ks@[i] == x;
                            assert(old_ks.contains(x)) by {
                                assert(i < old_ks.len());
                                assert(old_ks[i] == x);
                            }
                            let j = choose|j: int| 0 <= j < idx && *sq[j] == x;
                            assert(0 <= j < idx + 1 && *sq[j] == x);
                        }
                        if (exists|j: int| 0 <= j < idx + 1 && *sq[j] == x) && timed_out(
                            v.buttons[x],
                            now,
                            v.timeout,
                        ) {
                            let j = choose|j: int| 0 <= j < idx + 1 && *sq[j] == x;
                            assert(j != idx);
                            assert(old_ks.contains(x));
                            let i = choose|i: int| 0 <= i < old_ks.len() && old_ks[i] == x;
                            assert(ks@[i] == x);
                        }
                    }
                }
            }
        }
        proof {
            let target = v.buttons.dom().filter(|k: u8| timed_out(v.buttons[k], now, v.timeout));
            assert forall|x: u8| ks@.to_set().contains(x) <==> target.contains(x) by {
                if target.contains(x) {
                    assert(sq.unref().to_set().contains(x));
                    assert(sq.unref().contains(x));
                    let j = choose|j: int| 0 <= j < sq.unref().len() && sq.unref()[j] == x;
                    assert(*sq[j] == x);
                    assert(ks@.contains(x));
                }
                if ks@.to_set().contains(x) {
                    assert(ks@.contains(x));
                    let j = choose|j: int| 0 <= j < sq.len() && *sq[j] == x;
                    assert(sq.unref()[j] == x);
                    assert(sq.unref().contains(x));
                    assert(sq.unref().to_set().contains(x));
                }
            }
            assert(ks@.to_set() =~= target);
        }
        ks
    }

    /// Release any keys and buttons held longer than the timeout at time
    /// `now` (nanoseconds on the tracker's clock).
    pub fn sweep_at(&mut self, now: u64) -> (actions: Vec<String>)
        ensures
            sweep_outcome(old(self)@, now, texts(actions@), final(self)@),
    {
        let ghost v = self@;
        let ks = self.expired_keys(now);
        let bs = self.expired_buttons(now);
        let mut actions: Vec<String> = Vec::new();
        let mut i: usize = 0;
        while i < ks.len()
            invariant
                i <= ks@.len(),
                ks@.no_duplicates(),
                self@.buttons == v.buttons,
                self@.timeout == v.timeout,
                self@.keys == v.keys.remove_keys(ks@.take(i as int).to_set()),
                texts(actions@) == ks@.take(i as int).map_values(
                    |k: u16| release_timeout_text(evdev_name_spec(k)),
                ),
            decreases ks@.len() - i,
        {
            let code = ks[i];
            let ghost before = actions@;
            self.keys.remove(&code);
            let name = evdev_name(code);
            actions.push(text_with("release ", &name, " (timeout)"));
            proof {
                assert(ks@.take(i + 1) =~= ks@.take(i as int).push(code));
                ks@.take(i as int).lemma_push_to_set_commute(code);
                assert(ks@.take(i + 1).to_set() =~= ks@.take(i as int).to_set().insert(code));
                assert(texts(actions@) =~= texts(before).push(actions@.last()@));
                assert(self@.keys =~= v.keys.remove_keys(ks@.take(i + 1).to_set()));
                assert(texts(actions@) =~= ks@.take(i + 1).map_values(
                    |k: u16| release_timeout_text(evdev_name_spec(k)),
                ));
            }
            i += 1;
        }
        let ghost key_texts = texts(actions@);
        let mut j: usize = 0;
        assert(ks@.take(ks@.len() as int) =~= ks@);
        assert(texts(actions@) =~= key_texts + bs@.take(0).map_values(
            |b: u8| release_timeout_text(mouse_name(b)),
        ));
        while j < bs.len()
            invariant
                j <= bs@.len(),
                bs@.no_duplicates(),
                self@.keys == v.keys.remove_keys(ks@.to_set()),
                self@.timeout == v.timeout,
                self@.buttons == v.buttons.remove_keys(bs@.take(j as int).to_set()),
                texts(actions@) == key_texts + bs@.take(j as int).map_values(
                    |b: u8| release_timeout_text(mouse_name(b)),
                ),
            decreases bs@.len() - j,
        {
            let button = bs[j];
            let ghost before = actions@;
            self.mouse_buttons.remove(&button);
            let name = mouse_label(button);
            actions.push(text_with("release ", &name, " (timeout)"));
            proof {
                assert(bs@.take(j + 1) =~= bs@.take(j as int).push(button));
                bs@.take(j as int).lemma_push_to_set_commute(button);
                assert(bs@.take(j + 1).to_set() =~= bs@.take(j as int).to_set().insert(button));
                assert(texts(actions@) =~= texts(before).push(actions@.last()@));
                assert(self@.buttons =~= v.buttons.remove_keys(bs@.take(j + 1).to_set()));
                assert(texts(actions@) =~= key_texts + bs@.take(j + 1).map_values(
                    |b: u8| release_timeout_text(mouse_name(b)),
                ));
            }
            j += 1;
        }
        proof {
            assert(bs@.take(bs@.len() as int) =~= bs@);
            assert(self@.keys =~= keys_kept(v, now));
            assert(self@.buttons =~= buttons_kept(v, now));
            assert(texts(actions@) == ks@.map_values(
                |k: u16| release_timeout_text(evdev_name_spec(k)),
            ) + bs@.map_values(|b: u8| release_timeout_text(mouse_name(b))));
        }
        actions
    }

    /// Release any keys and buttons held longer than the timeout.
    pub fn sweep(&mut self) -> (actions: Vec<String>)
        ensures
            exists|now: u64| sweep_outcome(old(self)@, now, texts(actions@), final(self)@),
    {
        let now = nanos_since(&self.epoch);
        self.sweep_at(now)
    }
}


// ---------------------------------------------------------------------------
// Sessions
// ---------------------------------------------------------------------------

/// Value of little-endian bytes.
pub open spec fn le_value(b: Seq<u8>) -> nat
    decreases b.len(),
{
    if b.len() == 0 {
        0
    } else {
        b[0] as nat + 256 * le_value(b.drop_first())
    }
}

proof fn lemma_le_value_bound(b: Seq<u8>)
    ensures
        le_value(b) < pow256(b.len() as int),
    decreases b.len(),
{
    if b.len() > 0 {
        lemma_le_value_bound(b.drop_first());
        assert(pow256(b.len() as int) == 256 * pow256(b.len() - 1));
    }
}

/// `u64::from_le_bytes` of eight bytes.
pub fn u64_from_le(b: &[u8]) -> (v: u64)
    requires
        b@.len() == 8,
    ensures
        v as nat == le_value(b@),
{
    let mut acc: u64 = 0;
    let mut i: usize = 8;
    assert(b@.skip(8) =~= Seq::<u8>::empty());
    while i > 0
        invariant
            i <= 8,
            b@.len() == 8,
            acc as nat == le_value(b@.skip(i as int)),
        decreases i,
    {
        i -= 1;
        proof {
            assert(b@.skip(i as int).drop_first() =~= b@.skip(i + 1));
            lemma_le_value_bound(b@.skip(i + 1));
            assert(pow256(7 - i as int) <= pow256(7)) by {
                lemma_pow256_mono(7 - i as int, 7);
            }
            assert(pow256(7) == 72057594037927936) by {
                reveal_with_fuel(pow256, 8);
            }
        }
        acc = (b[i] as u64) + 256 * acc;
    }
    assert(b@.skip(0) =~= b@);
    acc
}

proof fn lemma_pow256_mono(i: int, j: int)
    requires
        0 <= i <= j,
    ensures
        pow256(i) <= pow256(j),
    decreases j - i,
{
    if i < j {
        lemma_pow256_mono(i, j - 1);
    }
}

pub type SessionUuid = [u8; 16];

pub type ConnId = u64;

/// The HKDF context that derives a connection id: the bytes of `spud-conn-id`.
pub open spec fn conn_id_info() -> Seq<u8> {
    seq![115u8, 112u8, 117u8, 100u8, 45u8, 99u8, 111u8, 110u8, 110u8, 45u8, 105u8, 100u8]
}

/// The connection id derived from a session UUID.
pub open spec fn conn_id_spec(uuid: Seq<u8>) -> nat {
    le_value(hkdf_sha256(uuid, conn_id_info(), 8))
}

/// Derive the connection id of a session from its UUID.
pub fn conn_id_for(uuid: &SessionUuid) -> (id: ConnId)
    ensures
        id as nat == conn_id_spec(uuid@),
{
    let info: [u8; 12] = [115u8, 112u8, 117u8, 100u8, 45u8, 99u8, 111u8, 110u8, 110u8, 45u8, 105u8, 100u8];
    assert(info@ =~= conn_id_info());
    let okm = hkdf_expand(uuid, &info, 8);
    u64_from_le(okm.as_slice())
}

/// Generate a random session UUID and derive a ConnID from it.
pub fn generate_session() -> (r: (SessionUuid, ConnId))
    ensures
        r.1 as nat == conn_id_spec(r.0@),
{
    let random = random_bytes(16);
    let mut uuid = [0u8; 16];
    let mut i: usize = 0;
    while i < 16
        invariant
            i <= 16,
            random@.len() == 16,
        decreases 16 - i,
    {
        uuid[i] = random[i];
        i += 1;
    }
    let conn_id = conn_id_for(&uuid);
    (uuid, conn_id)
}

/// Session keys of one direction pair.
#[derive(Debug, Clone)]
pub struct SessionKeys {
    pub server_read: [u8; 32],
    pub server_write: [u8; 32],
}

/// A bounded list of recently seen sequence numbers, oldest first: at most
/// `capacity` are kept, the oldest leaving first.
#[derive(Debug, Clone)]
pub struct RecentHistory {
    items: VecDeque<u16>,
    capacity: usize,
}

/// The numbers kept after seeing `x`: none with no capacity; else `x`
/// appended, the oldest dropped when the list was full.
pub open spec fn history_after_push(items: Seq<u16>, capacity: nat, x: u16) -> Seq<u16> {
    if capacity == 0 {
        items
    } else if items.len() >= capacity {
        items.drop_first().push(x)
    } else {
        items.push(x)
    }
}

/// The numbers kept after the capacity changes: the newest `capacity` of
/// them.
pub open spec fn history_after_resize(items: Seq<u16>, capacity: nat) -> Seq<u16> {
    if items.len() > capacity {
        items.skip(items.len() - capacity)
    } else {
        items
    }
}

impl View for RecentHistory {
    type V = (Seq<u16>, nat);

    closed spec fn view(&self) -> (Seq<u16>, nat) {
        (self.items@, self.capacity as nat)
    }
}

impl RecentHistory {
    /// Never more numbers than the capacity.
    pub closed spec fn wf(&self) -> bool {
        self.items@.len() <= self.capacity
    }

    /// An empty history that keeps at most `capacity` numbers.
    pub fn new(capacity: usize) -> (h: Self)
        ensures
            h.wf(),
            h@ == (Seq::<u16>::empty(), capacity as nat),
    {
        RecentHistory { items: VecDeque::new(), capacity }
    }

    /// Whether `x` is among the kept numbers.
    pub fn contains(&self, x: u16) -> (r: bool)
        ensures
            r == self@.0.contains(x),
    {
        let mut i: usize = 0;
        while i < self.items.len()
            invariant
                i <= self.items@.len(),
                forall|j: int| 0 <= j < i ==> self.items@[j] != x,
            decreases self.items@.len() - i,
        {
            if self.items[i] == x {
                return true;
            }
            i += 1;
        }
        false
    }

    /// Record `x` as seen.
    pub fn push(&mut self, x: u16)
        requires
            old(self).wf(),
        ensures
            final(self).wf(),
            final(self)@ == (history_after_push(old(self)@.0, old(self)@.1, x), old(self)@.1),
    {
        if self.capacity == 0 {
            return;
        }
        if self.items.len() >= self.capacity {
            self.items.pop_front();
        }
        self.items.push_back(x);
        proof {
            if old(self)@.0.len() >= old(self)@.1 {
                assert(self.items@ =~= old(self)@.0.drop_first().push(x));
            }
        }
    }

    /// Change how many numbers are kept, dropping the oldest beyond it.
    pub fn resize(&mut self, capacity: usize)
        requires
            old(self).wf(),
        ensures
            final(self).wf(),
            final(self)@ == (history_after_resize(old(self)@.0, capacity as nat), capacity as nat),
    {
        let ghost start = self.items@;
        self.capacity = capacity;
        assert(start.skip(0) =~= start);
        while self.items.len() > capacity
            invariant
                self.capacity == capacity,
                self.items@.len() <= start.len(),
                start.len() > capacity ==> self.items@.len() >= capacity,
                start.len() <= capacity ==> self.items@.len() == start.len(),
                self.items@ == start.skip(start.len() - self.items@.len()),
            decreases self.items@.len(),
        {
            let ghost before = self.items@;
            self.items.pop_front();
            proof {
                assert(self.items@ =~= start.skip(start.len() - self.items@.len()));
            }
        }
        proof {
            if start.len() <= capacity {
                assert(start.skip(0) =~= start);
            }
        }
    }
}

/// How many key and wheel sequence numbers a session remembers for
/// deduplication: half the range of the 8-bit counter.
pub const KEY_HISTORY_CAPACITY: usize = 128;

/// Number of consecutive failed decryptions after which a session is dropped.
pub const MAX_FAILED_DECRYPTS: u32 = 10;

/// Per-session state stored in the server's session table.
pub struct SessionState {
    pub keys: Option<SessionKeys>,
    pub replay_window: ReplayWindow,
    /// Nanoseconds on the session's clock at the last datagram or keepalive.
    pub last_activity: u64,
    /// Textual socket address of the client's last datagram.
    pub src_addr: String,
    pub encrypt: bool,
    pub failed_decrypts: u32,
    pub tracker: KeyTracker,
    pub screen_width: u16,
    pub screen_height: u16,
    pub window_mode: bool,
    /// Recent key and wheel sequence numbers, for deduplication.
    pub key_history: RecentHistory,
    /// Sequence bases of recently processed mouse batches, so that their
    /// redundant copies are skipped.
    pub mouse_history: RecentHistory,
}

impl SessionState {
    pub fn new(
        encrypt: bool,
        keys: Option<SessionKeys>,
        src_addr: String,
        key_timeout_ms: u16,
        screen_width: u16,
        screen_height: u16,
    ) -> (s: Self)
        ensures
            s.encrypt == encrypt,
            s.keys == keys,
            s.src_addr@ == src_addr@,
            s.failed_decrypts == 0,
            s.last_activity == 0,
            s.replay_window@.0 == 0,
            forall|k: int| 0 <= k < crate::crypto::WINDOW_SIZE ==> !#[trigger] s.replay_window@.1[k],
            s.tracker@.keys == Map::<u16, u64>::empty(),
            s.tracker@.buttons == Map::<u8, u64>::empty(),
            s.tracker@.timeout == key_timeout_ms as nat * 1_000_000,
            s.screen_width == screen_width,
            s.screen_height == screen_height,
            !s.window_mode,
            s.key_history.wf(),
            s.key_history@ == (Seq::<u16>::empty(), KEY_HISTORY_CAPACITY as nat),
            s.mouse_history.wf(),
            s.mouse_history@ == (Seq::<u16>::empty(), 0nat),
    {
        Self {
            keys,
            replay_window: ReplayWindow::new(),
            last_activity: 0,
            src_addr,
            encrypt,
            failed_decrypts: 0,
            tracker: KeyTracker::new(key_timeout_ms),
            screen_width,
            screen_height,
            window_mode: false,
            key_history: RecentHistory::new(KEY_HISTORY_CAPACITY),
            mouse_history: RecentHistory::new(0),
        }
    }

    pub fn record_decrypt_success(&mut self)
        ensures
            *final(self) == (SessionState { failed_decrypts: 0, ..*old(self) }),
    {
        self.failed_decrypts = 0;
    }

    /// Counts a failed decryption; true once the limit is reached.
    pub fn record_decrypt_failure(&mut self) -> (drop: bool)
        requires
            old(self).failed_decrypts < u32::MAX,
        ensures
            *final(self) == (SessionState { failed_decrypts: (old(self).failed_decrypts + 1) as u32, ..*old(self) }),
            drop == (final(self).failed_decrypts >= MAX_FAILED_DECRYPTS),
    {
        self.failed_decrypts += 1;
        self.failed_decrypts >= MAX_FAILED_DECRYPTS
    }
}


/// The name under which the tracker reports a key is read back by
/// `parse_key_name` as that key's scancode, for every scancode.
pub proof fn lemma_evdev_name_roundtrip(code: u16)
    ensures
        key_name_spec(evdev_name_spec(code)) == Some(code),
{
    reveal_strlit("evdev:");
    match key_code_name(code) {
        Some(n) => {
            lemma_named_key_roundtrip(code);
        },
        None => {
            let s = "evdev:"@ + decimal(code as nat);
            assert(s.take(6) =~= "evdev:"@);
            assert(has_prefix(s, "evdev:"@));
            assert(s.skip(6) =~= decimal(code as nat));
            lemma_parse_decimal(code as nat, 65535);
        },
    }
}

/// A key let go is no longer held: after the tracker takes `KeyUp`, the
/// held keys are the ones before without it, the buttons are untouched,
/// and one release is reported exactly when the key was held.
pub proof fn lemma_key_up_lets_go(v: TrackerView, code: u16, s: u8, now: u64)
    ensures
        ({
            let (actions, t) = tracker_step(v, Event::KeyUp(code, s), now);
            &&& !t.keys.contains_key(code)
            &&& t.keys == v.keys.remove(code)
            &&& t.buttons == v.buttons
            &&& t.timeout == v.timeout
            &&& actions.len() == (if v.keys.contains_key(code) { 1int } else { 0int })
        }),
{
    if !v.keys.contains_key(code) {
        assert(v.keys.remove(code) =~= v.keys);
    }
}

/// A key pressed and then let go is not held afterwards, whatever was held
/// before, so no later sweep releases it again.
pub proof fn lemma_press_then_release(v: TrackerView, code: u16, s1: u8, s2: u8, t1: u64, t2: u64)
    ensures
        ({
            let (_, a) = tracker_step(v, Event::KeyDown(code, s1), t1);
            let (actions, b) = tracker_step(a, Event::KeyUp(code, s2), t2);
            &&& a.keys.contains_key(code) && a.keys[code] == t1
            &&& !b.keys.contains_key(code)
            &&& b.keys == v.keys.remove(code)
            &&& actions.len() == 1
        }),
{
    let (_, a) = tracker_step(v, Event::KeyDown(code, s1), t1);
    assert(a.keys.remove(code) =~= v.keys.remove(code));
}

/// A mouse button pressed is held from then on; one let go is not held.
pub proof fn lemma_button_press_release(v: TrackerView, button: u8, pressed: bool, now: u64)
    ensures
        ({
            let (_, t) = tracker_step(v, Event::MouseButton { button, pressed }, now);
            &&& pressed ==> t.buttons == v.buttons.insert(button, now)
            &&& !pressed ==> t.buttons == v.buttons.remove(button)
            &&& t.keys == v.keys
        }),
{
    if !pressed && !v.buttons.contains_key(button) {
        assert(v.buttons.remove(button) =~= v.buttons);
    }
}

} // verus!
