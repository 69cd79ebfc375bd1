//! The server's handling of a session: event datagrams (decryption, replay
//! protection, deduplication of redundant batches and of key events, key
//! tracking, and the injections they call for), control messages, idle
//! timeout, and the session setup after authentication.

use vstd::prelude::*;
use std::collections::HashMap;
use crate::crypto::{decrypt_event, open_packet, replay_step};
use crate::input::inject::{linux_button, wire_to_linux_button};
use crate::net::protocol::ControlMsg;
use crate::net::{batches_from_bytes, batches_view, DecodedBatch, Event};
use crate::session::{
    history_after_push, history_after_resize, le_value, texts, tracker_step, u64_from_le, SessionState, TrackerView,
};
use crate::config::{extract_salt, phc_salt};
use crate::net::auth::{server_expected, server_verify_response};
use crate::net::client::{handshake_outcome, ClientHandshake, HandshakeStage, HandshakeStep};
use crate::config::{argon2_phc, hashed_passphrase, phc_hash, salt_hashes_all};

verus! {

/// A command for the input injector.
#[derive(Debug, Clone, Copy, PartialEq, Eq, Structural)]
pub enum Injection {
    KeyDown(u16),
    KeyUp(u16),
    ButtonDown(u16),
    ButtonUp(u16),
    Wheel(i8, i8),
    MoveRel(i32, i32),
    MoveAbs(i32, i32),
}

/// The platform whose injector receives the commands.
#[derive(Debug, Clone, Copy, PartialEq, Eq, Structural)]
pub enum InjectPlatform {
    Linux,
    MacOs,
    Other,
}

/// The injector's button code for a wire button: Linux input codes on
/// Linux; elsewhere the wire code itself (the macOS injector translates it).
pub open spec fn platform_button(wire: u8, p: InjectPlatform) -> u16 {
    match p {
        InjectPlatform::Linux => linux_button(wire),
        _ => wire as u16,
    }
}

/// Map a wire button to the injector's button code.
pub fn wire_to_platform_button(wire: u8, platform: InjectPlatform) -> (code: u16)
    ensures
        code == platform_button(wire, platform),
{
    match platform {
        InjectPlatform::Linux => wire_to_linux_button(wire),
        _ => wire as u16,
    }
}

/// Screens up to this many pixels wide and high can have absolute pointer
/// positions scaled in 32-bit arithmetic.
pub const MAX_SCREEN_SIDE: u16 = 32768;

/// An absolute position in `0..=65535` scaled to a screen side of `side`
/// pixels, rounded to the nearest pixel (the last pixel for 65535).
pub open spec fn scaled(pos: u16, side: u16) -> i32 {
    if side == 0 {
        0
    } else {
        ((pos * (side - 1) + 32767) / 65535) as i32
    }
}

/// Scale an absolute position to a screen side.
pub fn scale_abs(pos: u16, side: u16) -> (px: i32)
    requires
        side <= MAX_SCREEN_SIDE,
    ensures
        px == scaled(pos, side),
{
    if side == 0 {
        return 0;
    }
    assert(0 <= pos as int * (side - 1) <= 65535 * 32767) by (nonlinear_arith)
        requires
            side >= 1,
            side <= 32768,
    ;
    let num: i32 = pos as i32 * (side as i32 - 1) + 32767;
    num / 65535
}

/// The sequence number that deduplicates a key or wheel event.
pub open spec fn event_seq(e: Event) -> Option<u8> {
    match e {
        Event::KeyDown(_, s) => Some(s),
        Event::KeyUp(_, s) => Some(s),
        Event::KeyRepeat(_, s) => Some(s),
        Event::Wheel { seq, .. } => Some(seq),
        _ => None,
    }
}

/// The injection for a pointer event of a redundant batch.
pub open spec fn redundant_injection(e: Event, w: u16, h: u16) -> Seq<Injection> {
    match e {
        Event::MouseMove { dx, dy } => seq![Injection::MoveRel(dx as i32, dy as i32)],
        Event::MouseAbs { x, y } => seq![Injection::MoveAbs(scaled(x, w), scaled(y, h))],
        _ => Seq::empty(),
    }
}

/// The injections for the pointer events of a redundant batch.
pub open spec fn redundant_injections(es: Seq<Event>, w: u16, h: u16) -> Seq<Injection>
    decreases es.len(),
{
    if es.len() == 0 {
        Seq::empty()
    } else {
        redundant_injections(es.drop_last(), w, h) + redundant_injection(es.last(), w, h)
    }
}

/// The redundant batches taken oldest first: each one not processed before
/// moves the pointer as its events say (when injecting) and is remembered.
pub open spec fn redundant_pass(
    hist: Seq<u16>,
    cap: nat,
    rev: Seq<(Seq<Event>, u16)>,
    inject: bool,
    w: u16,
    h: u16,
) -> (Seq<u16>, Seq<Injection>)
    decreases rev.len(),
{
    if rev.len() == 0 {
        (hist, Seq::empty())
    } else {
        let (h1, i1) = redundant_pass(hist, cap, rev.drop_last(), inject, w, h);
        let b = rev.last();
        if h1.contains(b.1) {
            (h1, i1)
        } else {
            (
                history_after_push(h1, cap, b.1),
                i1 + (if inject { redundant_injections(b.0, w, h) } else { Seq::empty() }),
            )
        }
    }
}

/// The injections for one event of the current batch.
pub open spec fn event_injection(e: Event, w: u16, h: u16, p: InjectPlatform) -> Seq<Injection> {
    match e {
        Event::KeyDown(code, _) => seq![Injection::KeyDown(code)],
        Event::KeyUp(code, _) => seq![Injection::KeyUp(code)],
        Event::MouseButton { button, pressed } => if pressed {
            seq![Injection::ButtonDown(platform_button(button, p))]
        } else {
            seq![Injection::ButtonUp(platform_button(button, p))]
        },
        Event::Wheel { dx, dy, .. } => seq![Injection::Wheel(dx, dy)],
        Event::MouseAbs { x, y } => seq![Injection::MoveAbs(scaled(x, w), scaled(y, h))],
        Event::MouseMove { dx, dy } => seq![Injection::MoveRel(dx as i32, dy as i32)],
        _ => Seq::empty(),
    }
}

/// The state that the current batch's events thread through: the key
/// history and the held keys and buttons.
pub struct PrimaryState {
    pub key_history: Seq<u16>,
    pub tracker: TrackerView,
}

/// One event of the current batch: a key or wheel event whose nonzero
/// sequence number was seen recently is dropped; otherwise the number is
/// remembered, the tracker takes the event (reporting what it did), and
/// when injecting, a repeat of a key or button that is not held first
/// presses it, then the event itself is injected.
pub open spec fn primary_event(
    st: PrimaryState,
    key_cap: nat,
    e: Event,
    now: u64,
    inject: bool,
    w: u16,
    h: u16,
    p: InjectPlatform,
) -> (PrimaryState, Seq<Injection>, Seq<(Event, Seq<Seq<char>>)>) {
    let s = event_seq(e);
    if s matches Some(n) && n != 0 && st.key_history.contains(n as u16) {
        (st, Seq::empty(), Seq::empty())
    } else {
        let kh = match s {
            Some(n) => if n != 0 {
                history_after_push(st.key_history, key_cap, n as u16)
            } else {
                st.key_history
            },
            None => st.key_history,
        };
        let pre: Seq<Injection> = match e {
            Event::KeyRepeat(c, _) => if !st.tracker.keys.contains_key(c) {
                seq![Injection::KeyDown(c)]
            } else {
                Seq::empty()
            },
            Event::MouseButtonRepeat(b) => if !st.tracker.buttons.contains_key(b) {
                seq![Injection::ButtonDown(platform_button(b, p))]
            } else {
                Seq::empty()
            },
            _ => Seq::empty(),
        };
        let (actions, tracker) = tracker_step(st.tracker, e, now);
        (
            PrimaryState { key_history: kh, tracker },
            if inject { pre + event_injection(e, w, h, p) } else { Seq::empty() },
            seq![(e, actions)],
        )
    }
}

/// The events of the current batch, in order.
pub open spec fn primary_pass(
    st: PrimaryState,
    key_cap: nat,
    es: Seq<Event>,
    now: u64,
    inject: bool,
    w: u16,
    h: u16,
    p: InjectPlatform,
) -> (PrimaryState, Seq<Injection>, Seq<(Event, Seq<Seq<char>>)>)
    decreases es.len(),
{
    if es.len() == 0 {
        (st, Seq::empty(), Seq::empty())
    } else {
        let (s1, i1, r1) = primary_pass(st, key_cap, es.drop_last(), now, inject, w, h, p);
        let (s2, i2, r2) = primary_event(s1, key_cap, es.last(), now, inject, w, h, p);
        (s2, i1 + i2, r1 + r2)
    }
}

/// A batch that moves the pointer.
pub open spec fn moves_pointer(es: Seq<Event>) -> bool {
    exists|i: int| 0 <= i < es.len() && (es[i] is MouseMove || es[i] is MouseAbs)
}

/// Why a datagram was dropped before its events were looked at.
#[derive(Debug, Clone, Copy, PartialEq, Eq, Structural)]
pub enum DatagramNote {
    /// Its sequence number was seen before or is too old.
    Replayed(u64),
    /// The session encrypts but has no keys.
    MissingKeys,
    /// Too short to hold a sequence number, nonce and tag.
    TooShort,
    /// It did not decrypt.
    Undecryptable,
}

/// What handling a datagram gave: the injector commands, for each event of
/// the current batch that was taken the tracker's report, whether the
/// session must go, and why the datagram was dropped if it was.
#[derive(Debug, Clone)]
pub struct DatagramOutcome {
    pub injections: Vec<Injection>,
    pub reports: Vec<(Event, Vec<String>)>,
    pub remove_session: bool,
    pub note: Option<DatagramNote>,
}

/// The connection id that a datagram starts with.
pub open spec fn datagram_conn_id_spec(d: Seq<u8>) -> Option<u64> {
    if d.len() < 8 {
        None
    } else {
        Some(le_value(d.take(8)) as u64)
    }
}

/// The connection id that a datagram starts with, if it is long enough.
pub fn datagram_conn_id(datagram: &[u8]) -> (r: Option<u64>)
    ensures
        r == datagram_conn_id_spec(datagram@),
{
    if datagram.len() < 8 {
        return None;
    }
    let id = u64_from_le(vstd::slice::slice_subrange(datagram, 0, 8));
    Some(id)
}

/// The sequence number of an encrypted datagram.
pub open spec fn datagram_seq(d: Seq<u8>) -> u64 {
    le_value(d.subrange(8, 16)) as u64
}

/// What the session can take without overflow: the decrypt-failure count
/// has room, and absolute positions scale in 32-bit arithmetic.
pub open spec fn session_ready(s: SessionState) -> bool {
    &&& s.failed_decrypts < u32::MAX
    &&& s.screen_width <= MAX_SCREEN_SIDE
    &&& s.screen_height <= MAX_SCREEN_SIDE
    &&& s.key_history.wf()
    &&& s.mouse_history.wf()
}

/// The payload a datagram carries for the session, and the replay window
/// after looking at it.
pub open spec fn datagram_payload(s: SessionState, d: Seq<u8>) -> (Option<Seq<u8>>, (u64, Seq<bool>)) {
    if !s.encrypt {
        (Some(d.skip(8)), s.replay_window@)
    } else if d.len() < 32 {
        (None, s.replay_window@)
    } else {
        let (ok, w) = replay_step(s.replay_window@, datagram_seq(d));
        if !ok {
            (None, w)
        } else {
            match s.keys {
                None => (None, w),
                Some(k) => (open_packet(k.server_read@, datagram_seq(d), d.skip(16)), w),
            }
        }
    }
}

/// Why the session drops a datagram before looking at its events: too
/// short to hold a sequence number, nonce and tag; a sequence number seen
/// before or too old; no keys; or it does not decrypt.
pub open spec fn datagram_note(s: SessionState, d: Seq<u8>) -> Option<DatagramNote> {
    if !s.encrypt {
        None
    } else if d.len() < 32 {
        Some(DatagramNote::TooShort)
    } else if !replay_step(s.replay_window@, datagram_seq(d)).0 {
        Some(DatagramNote::Replayed(datagram_seq(d)))
    } else {
        match s.keys {
            None => Some(DatagramNote::MissingKeys),
            Some(k) => if open_packet(k.server_read@, datagram_seq(d), d.skip(16)) is None {
                Some(DatagramNote::Undecryptable)
            } else {
                None
            },
        }
    }
}

impl SessionState {
    /// Handle an event datagram of this session received at `now` from
    /// `src_addr`: note the activity; obtain the payload (decrypting and
    /// checking the sequence number when the session encrypts); then take
    /// the redundant batches oldest first, skipping any processed before,
    /// and every event of the current batch, deduplicating key and wheel
    /// events by sequence number. When `inject` is set (an injector is
    /// there and the datagram is not from this machine), the events become
    /// injector commands. A datagram that does not decrypt counts towards
    /// dropping the session.
    pub fn on_datagram(
        &mut self,
        datagram: &[u8],
        src_addr: String,
        now: u64,
        inject: bool,
        platform: InjectPlatform,
    ) -> (out: DatagramOutcome)
        requires
            datagram@.len() >= 8,
            session_ready(*old(self)),
        ensures
            session_ready(*final(self)) || out.remove_session,
            final(self).key_history.wf(),
            final(self).mouse_history.wf(),
            final(self).last_activity == now,
            final(self).src_addr@ == src_addr@,
            final(self).encrypt == old(self).encrypt,
            final(self).keys == old(self).keys,
            final(self).window_mode == old(self).window_mode,
            final(self).screen_width == old(self).screen_width,
            final(self).screen_height == old(self).screen_height,
            final(self).replay_window@ == datagram_payload(*old(self), datagram@).1,
            out.note == datagram_note(*old(self), datagram@),
            final(self).key_history@.1 == old(self).key_history@.1,
            final(self).mouse_history@.1 == old(self).mouse_history@.1,
            match datagram_payload(*old(self), datagram@).0 {
                None => {
                    &&& out.injections@.len() == 0
                    &&& out.reports@.len() == 0
                    &&& final(self).tracker@ == old(self).tracker@
                    &&& final(self).key_history@ == old(self).key_history@
                    &&& final(self).mouse_history@ == old(self).mouse_history@
                    &&& if old(self).encrypt {
                        &&& final(self).failed_decrypts == old(self).failed_decrypts + 1
                        &&& out.remove_session == (final(self).failed_decrypts
                            >= crate::session::MAX_FAILED_DECRYPTS)
                    } else {
                        &&& final(self).failed_decrypts == old(self).failed_decrypts
                        &&& !out.remove_session
                    }
                },
                Some(pt) => {
                    let bs = batches_from_bytes(pt);
                    let w = old(self).screen_width;
                    let h = old(self).screen_height;
                    &&& final(self).failed_decrypts == 0
                    &&& !out.remove_session
                    &&& if bs.len() == 0 {
                        &&& out.injections@.len() == 0
                        &&& out.reports@.len() == 0
                        &&& final(self).tracker@ == old(self).tracker@
                        &&& final(self).key_history@ == old(self).key_history@
                        &&& final(self).mouse_history@ == old(self).mouse_history@
                    } else {
                        let (mh1, inj1) = redundant_pass(
                            old(self).mouse_history@.0,
                            old(self).mouse_history@.1,
                            bs.skip(1).reverse(),
                            inject,
                            w,
                            h,
                        );
                        let (st, inj2, reps) = primary_pass(
                            PrimaryState { key_history: old(self).key_history@.0, tracker: old(self).tracker@ },
                            old(self).key_history@.1,
                            bs[0].0,
                            now,
                            inject,
                            w,
                            h,
                            platform,
                        );
                        &&& out.injections@ == inj1 + inj2
                        &&& out.reports@.map_values(|r: (Event, Vec<String>)| (r.0, texts(r.1@))) == reps
                        &&& final(self).tracker@ == st.tracker
                        &&& final(self).key_history@.0 == st.key_history
                        &&& final(self).mouse_history@.0 == (if moves_pointer(bs[0].0) {
                            history_after_push(mh1, old(self).mouse_history@.1, bs[0].1)
                        } else {
                            mh1
                        })
                    }
                },
            },
    {
        self.last_activity = now;
        self.src_addr = src_addr;
        let mut note: Option<DatagramNote> = None;
        let payload: Option<Vec<u8>> = if !self.encrypt {
            let p = vstd::slice::slice_to_vec(vstd::slice::slice_subrange(datagram, 8, datagram.len()));
            assert(p@ =~= datagram@.skip(8));
            Some(p)
        } else if datagram.len() < 32 {
            note = Some(DatagramNote::TooShort);
            None
        } else {
            let seq = u64_from_le(vstd::slice::slice_subrange(datagram, 8, 16));
            if !self.replay_window.is_valid(seq) {
                note = Some(DatagramNote::Replayed(seq));
                None
            } else {
                match &self.keys {
                    Some(k) => {
                        let body = vstd::slice::slice_subrange(datagram, 16, datagram.len());
                        assert(body@ =~= datagram@.skip(16));
                        let pt = decrypt_event(&k.server_read, seq, body);
                        if pt.is_none() {
                            note = Some(DatagramNote::Undecryptable);
                        }
                        pt
                    },
                    None => {
                        note = Some(DatagramNote::MissingKeys);
                        None
                    },
                }
            }
        };
        let mut out = DatagramOutcome {
            injections: Vec::new(),
            reports: Vec::new(),
            remove_session: false,
            note,
        };
        match payload {
            None => {
                if self.encrypt {
                    out.remove_session = self.record_decrypt_failure();
                }
                out
            },
            Some(pt) => {
                self.record_decrypt_success();
                let batches = Event::decode_all_batches(pt.as_slice());
                if batches.len() == 0 {
                    return out;
                }
                self.take_redundant(&batches, inject, &mut out.injections);
                self.take_primary(&batches[0], now, inject, platform, &mut out.injections, &mut out.reports);
                proof {
                    assert(batches_view(batches@)[0] == batches@[0]@);
                }
                out
            },
        }
    }

    /// Take the redundant batches (all but the first), oldest first.
    fn take_redundant(&mut self, batches: &Vec<DecodedBatch>, inject: bool, injections: &mut Vec<Injection>)
        requires
            batches@.len() >= 1,
            old(self).mouse_history.wf(),
            old(self).screen_width <= MAX_SCREEN_SIDE,
            old(self).screen_height <= MAX_SCREEN_SIDE,
            old(injections)@.len() == 0,
        ensures
            final(self).mouse_history.wf(),
            final(self).mouse_history@.1 == old(self).mouse_history@.1,
            ({
                let (mh, inj) = redundant_pass(
                    old(self).mouse_history@.0,
                    old(self).mouse_history@.1,
                    batches_view(batches@).skip(1).reverse(),
                    inject,
                    old(self).screen_width,
                    old(self).screen_height,
                );
                final(self).mouse_history@.0 == mh && final(injections)@ == inj
            }),
            final(self).tracker@ == old(self).tracker@,
            final(self).key_history@ == old(self).key_history@,
            final(self).key_history.wf() == old(self).key_history.wf(),
            final(self).failed_decrypts == old(self).failed_decrypts,
            final(self).replay_window@ == old(self).replay_window@,
            final(self).last_activity == old(self).last_activity,
            final(self).src_addr@ == old(self).src_addr@,
            final(self).encrypt == old(self).encrypt,
            final(self).keys == old(self).keys,
            final(self).window_mode == old(self).window_mode,
            final(self).screen_width == old(self).screen_width,
            final(self).screen_height == old(self).screen_height,
    {
        let ghost rev = batches_view(batches@).skip(1).reverse();
        let ghost cap = self.mouse_history@.1;
        let w = self.screen_width;
        let h = self.screen_height;
        let m = batches.len() - 1;
        let mut k: usize = 0;
        while k < m
            invariant
                m == batches@.len() - 1,
                rev == batches_view(batches@).skip(1).reverse(),
                rev.len() == m,
                k <= m,
                self.mouse_history.wf(),
                self.mouse_history@.1 == cap,
                w == self.screen_width,
                h == self.screen_height,
                w <= MAX_SCREEN_SIDE,
                h <= MAX_SCREEN_SIDE,
                (self.mouse_history@.0, injections@) == redundant_pass(
                    old(self).mouse_history@.0,
                    cap,
                    rev.take(k as int),
                    inject,
                    w,
                    h,
                ),
                self.tracker@ == old(self).tracker@,
                self.key_history@ == old(self).key_history@,
                self.key_history.wf() == old(self).key_history.wf(),
                self.failed_decrypts == old(self).failed_decrypts,
                self.replay_window@ == old(self).replay_window@,
                self.last_activity == old(self).last_activity,
                self.src_addr@ == old(self).src_addr@,
                self.encrypt == old(self).encrypt,
                self.keys == old(self).keys,
                self.window_mode == old(self).window_mode,
            decreases m - k,
        {
            let b = &batches[m - k];
            proof {
                assert(rev[k as int] == batches@[m - k]@);
                assert(rev.take(k + 1).drop_last() =~= rev.take(k as int));
                assert(rev.take(k + 1).last() == rev[k as int]);
            }
            if !self.mouse_history.contains(b.seq_base) {
                if inject {
                    let mut j: usize = 0;
                    let ghost before = injections@;
                    while j < b.events.len()
                        invariant
                            j <= b.events@.len(),
                            w <= MAX_SCREEN_SIDE,
                            h <= MAX_SCREEN_SIDE,
                            injections@ == before + redundant_injections(b.events@.take(j as int), w, h),
                        decreases b.events@.len() - j,
                    {
                        proof {
                            assert(b.events@.take(j + 1).drop_last() =~= b.events@.take(j as int));
                        }
                        match b.events[j] {
                            Event::MouseMove { dx, dy } => {
                                injections.push(Injection::MoveRel(dx as i32, dy as i32));
                            },
                            Event::MouseAbs { x, y } => {
                                let px = scale_abs(x, w);
                                let py = scale_abs(y, h);
                                injections.push(Injection::MoveAbs(px, py));
                            },
                            _ => {},
                        }
                        proof {
                            assert(injections@ =~= before + redundant_injections(b.events@.take(j + 1), w, h));
                        }
                        j += 1;
                    }
                    proof {
                        assert(b.events@.take(b.events@.len() as int) =~= b.events@);
                    }
                }
                self.mouse_history.push(b.seq_base);
            }
            k += 1;
        }
        proof {
            assert(rev.take(m as int) =~= rev);
        }
    }

    /// Take the events of the current batch.
    fn take_primary(
        &mut self,
        batch: &DecodedBatch,
        now: u64,
        inject: bool,
        platform: InjectPlatform,
        injections: &mut Vec<Injection>,
        reports: &mut Vec<(Event, Vec<String>)>,
    )
        requires
            old(self).mouse_history.wf(),
            old(self).key_history.wf(),
            old(self).screen_width <= MAX_SCREEN_SIDE,
            old(self).screen_height <= MAX_SCREEN_SIDE,
            old(reports)@.len() == 0,
        ensures
            final(self).mouse_history.wf(),
            final(self).key_history.wf(),
            final(self).key_history@.1 == old(self).key_history@.1,
            final(self).mouse_history@.1 == old(self).mouse_history@.1,
            ({
                let (st, inj, reps) = primary_pass(
                    PrimaryState { key_history: old(self).key_history@.0, tracker: old(self).tracker@ },
                    old(self).key_history@.1,
                    batch.events@,
                    now,
                    inject,
                    old(self).screen_width,
                    old(self).screen_height,
                    platform,
                );
                &&& final(injections)@ == old(injections)@ + inj
                &&& final(reports)@.map_values(|r: (Event, Vec<String>)| (r.0, texts(r.1@))) == reps
                &&& final(self).tracker@ == st.tracker
                &&& final(self).key_history@.0 == st.key_history
            }),
            final(self).mouse_history@.0 == (if moves_pointer(batch.events@) {
                history_after_push(old(self).mouse_history@.0, old(self).mouse_history@.1, batch.seq_base)
            } else {
                old(self).mouse_history@.0
            }),
            final(self).failed_decrypts == old(self).failed_decrypts,
            final(self).replay_window@ == old(self).replay_window@,
            final(self).last_activity == old(self).last_activity,
            final(self).src_addr@ == old(self).src_addr@,
            final(self).encrypt == old(self).encrypt,
            final(self).keys == old(self).keys,
            final(self).window_mode == old(self).window_mode,
            final(self).screen_width == old(self).screen_width,
            final(self).screen_height == old(self).screen_height,
    {
        let ghost key_cap = self.key_history@.1;
        let ghost inj0 = injections@;
        let w = self.screen_width;
        let h = self.screen_height;
        let mut moves = false;
        let mut j: usize = 0;
        while j < batch.events.len()
            invariant
                j <= batch.events@.len(),
                self.key_history.wf(),
                self.key_history@.1 == key_cap,
                w == self.screen_width,
                h == self.screen_height,
                w <= MAX_SCREEN_SIDE,
                h <= MAX_SCREEN_SIDE,
                moves == (exists|i: int| 0 <= i < j && (batch.events@[i] is MouseMove || batch.events@[i] is MouseAbs)),
                ({
                    let (st, inj, reps) = primary_pass(
                        PrimaryState { key_history: old(self).key_history@.0, tracker: old(self).tracker@ },
                        key_cap,
                        batch.events@.take(j as int),
                        now,
                        inject,
                        w,
                        h,
                        platform,
                    );
                    &&& injections@ == inj0 + inj
                    &&& reports@.map_values(|r: (Event, Vec<String>)| (r.0, texts(r.1@))) == reps
                    &&& self.tracker@ == st.tracker
                    &&& self.key_history@.0 == st.key_history
                }),
                self.mouse_history@ == old(self).mouse_history@,
                self.mouse_history.wf(),
                self.failed_decrypts == old(self).failed_decrypts,
                self.replay_window@ == old(self).replay_window@,
                self.last_activity == old(self).last_activity,
                self.src_addr@ == old(self).src_addr@,
                self.encrypt == old(self).encrypt,
                self.keys == old(self).keys,
                self.window_mode == old(self).window_mode,
            decreases batch.events@.len() - j,
        {
            let e = batch.events[j];
            let ghost es = batch.events@.take(j + 1);
            proof {
                assert(es.drop_last() =~= batch.events@.take(j as int));
                assert(es.last() == e);
            }
            let ghost prev_inj = injections@;
            let ghost prev_reps = reports@;
            if let Event::MouseMove { .. } = e {
                moves = true;
            }
            if let Event::MouseAbs { .. } = e {
                moves = true;
            }
            let seq: Option<u8> = match e {
                Event::KeyDown(_, s) => Some(s),
                Event::KeyUp(_, s) => Some(s),
                Event::KeyRepeat(_, s) => Some(s),
                Event::Wheel { seq, .. } => Some(seq),
                _ => None,
            };
            let mut skip = false;
            if let Some(s) = seq {
                if s != 0 && self.key_history.contains(s as u16) {
                    skip = true;
                } else if s != 0 {
                    self.key_history.push(s as u16);
                }
            }
            if !skip {
                let needs_key_down = match e {
                    Event::KeyRepeat(c, _) => !self.tracker.has_key(c),
                    _ => false,
                };
                let needs_button_down = match e {
                    Event::MouseButtonRepeat(b) => !self.tracker.has_button(b),
                    _ => false,
                };
                let actions = self.tracker.handle_event_at(&e, now);
                if inject {
                    if needs_key_down {
                        if let Event::KeyRepeat(code, _) = e {
                            injections.push(Injection::KeyDown(code));
                        }
                    }
                    if needs_button_down {
                        if let Event::MouseButtonRepeat(button) = e {
                            injections.push(Injection::ButtonDown(wire_to_platform_button(button, platform)));
                        }
                    }
                    match e {
                        Event::KeyDown(code, _) => injections.push(Injection::KeyDown(code)),
                        Event::KeyUp(code, _) => injections.push(Injection::KeyUp(code)),
                        Event::MouseButton { button, pressed } => {
                            if pressed {
                                injections.push(Injection::ButtonDown(wire_to_platform_button(button, platform)));
                            } else {
                                injections.push(Injection::ButtonUp(wire_to_platform_button(button, platform)));
                            }
                        },
                        Event::Wheel { dx, dy, .. } => injections.push(Injection::Wheel(dx, dy)),
                        Event::MouseAbs { x, y } => {
                            let px = scale_abs(x, w);
                            let py = scale_abs(y, h);
                            injections.push(Injection::MoveAbs(px, py));
                        },
                        Event::MouseMove { dx, dy } => {
                            injections.push(Injection::MoveRel(dx as i32, dy as i32));
                        },
                        _ => {},
                    }
                }
                reports.push((e, actions));
            }
            proof {
                let (st0, inj_a, reps_a) = primary_pass(
                    PrimaryState { key_history: old(self).key_history@.0, tracker: old(self).tracker@ },
                    key_cap,
                    batch.events@.take(j as int),
                    now,
                    inject,
                    w,
                    h,
                    platform,
                );
                let (st1, inj_b, reps_b) = primary_event(st0, key_cap, e, now, inject, w, h, platform);
                assert(injections@ =~= inj0 + (inj_a + inj_b));
                assert(reports@.map_values(|r: (Event, Vec<String>)| (r.0, texts(r.1@))) =~= reps_a + reps_b);
            }
            j += 1;
        }
        proof {
            assert(batch.events@.take(batch.events@.len() as int) =~= batch.events@);
        }
        if moves {
            self.mouse_history.push(batch.seq_base);
        }
    }

    /// Take a control message received at `now`: a keepalive marks
    /// activity, a capture mode is recorded, and a batch configuration sets
    /// how many batch sequence bases are remembered: the batch size times
    /// the redundancy times `history_multiplier`.
    pub fn on_control(&mut self, msg: &ControlMsg, now: u64, history_multiplier: u8)
        requires
            old(self).mouse_history.wf(),
        ensures
            final(self).mouse_history.wf(),
            final(self).key_history@ == old(self).key_history@,
            final(self).tracker@ == old(self).tracker@,
            final(self).encrypt == old(self).encrypt,
            final(self).keys == old(self).keys,
            match *msg {
                ControlMsg::Keepalive => {
                    &&& final(self).last_activity == now
                    &&& final(self).window_mode == old(self).window_mode
                    &&& final(self).mouse_history@ == old(self).mouse_history@
                },
                ControlMsg::SetCaptureMode { window_mode } => {
                    &&& final(self).window_mode == window_mode
                    &&& final(self).last_activity == old(self).last_activity
                    &&& final(self).mouse_history@ == old(self).mouse_history@
                },
                ControlMsg::SetBatchConfig { max_batch, batch_redundancy } => {
                    let cap = max_batch as nat * batch_redundancy as nat * history_multiplier as nat;
                    &&& final(self).mouse_history@ == (history_after_resize(old(self).mouse_history@.0, cap), cap)
                    &&& final(self).window_mode == old(self).window_mode
                    &&& final(self).last_activity == old(self).last_activity
                },
                _ => {
                    &&& final(self).last_activity == old(self).last_activity
                    &&& final(self).window_mode == old(self).window_mode
                    &&& final(self).mouse_history@ == old(self).mouse_history@
                },
            },
    {
        match msg {
            ControlMsg::Keepalive => {
                self.last_activity = now;
            },
            ControlMsg::SetCaptureMode { window_mode } => {
                self.window_mode = *window_mode;
            },
            ControlMsg::SetBatchConfig { max_batch, batch_redundancy } => {
                assert(*max_batch as nat * *batch_redundancy as nat <= 255 * 255) by (nonlinear_arith);
                assert(*max_batch as nat * *batch_redundancy as nat * history_multiplier as nat <= 255 * 255 * 255)
                    by (nonlinear_arith);
                let cap = *max_batch as usize * *batch_redundancy as usize * history_multiplier as usize;
                self.mouse_history.resize(cap);
            },
            _ => {},
        }
    }
}

/// The server's sessions, by connection id.
pub struct SessionTable {
    sessions: HashMap<u64, SessionState>,
}

impl View for SessionTable {
    type V = Map<u64, SessionState>;

    closed spec fn view(&self) -> Map<u64, SessionState> {
        self.sessions@
    }
}

/// Every session in the table can take a datagram.
pub open spec fn table_ready(m: Map<u64, SessionState>) -> bool {
    forall|id: u64| #[trigger] m.contains_key(id) ==> session_ready(m[id])
}

impl SessionTable {
    /// A table with no session.
    pub fn new() -> (t: Self)
        ensures
            t@ == Map::<u64, SessionState>::empty(),
    {
        SessionTable { sessions: HashMap::new() }
    }

    /// Open the session with this connection id.
    pub fn insert(&mut self, conn_id: u64, session: SessionState)
        ensures
            final(self)@ == old(self)@.insert(conn_id, session),
    {
        broadcast use vstd::std_specs::hash::group_hash_axioms;
        self.sessions.insert(conn_id, session);
    }

    /// Close the session with this connection id, if there is one.
    pub fn remove(&mut self, conn_id: u64)
        ensures
            final(self)@ == old(self)@.remove(conn_id),
    {
        broadcast use vstd::std_specs::hash::group_hash_axioms;
        self.sessions.remove(&conn_id);
    }

    /// Whether a session has this connection id.
    pub fn contains(&self, conn_id: u64) -> (b: bool)
        ensures
            b == self@.contains_key(conn_id),
    {
        broadcast use vstd::std_specs::hash::group_hash_axioms;
        self.sessions.contains_key(&conn_id)
    }

    /// Release the keys and buttons that the session with this connection
    /// id has held longer than its timeout; nothing where there is no such
    /// session. The sessions stay as they are otherwise.
    pub fn sweep(&mut self, conn_id: u64) -> (actions: Vec<String>)
        requires
            table_ready(old(self)@),
        ensures
            table_ready(final(self)@),
            final(self)@.dom() == old(self)@.dom(),
            !old(self)@.contains_key(conn_id) ==> actions@.len() == 0 && final(self)@ == old(self)@,
            old(self)@.contains_key(conn_id) ==> {
                &&& final(self)@.remove(conn_id) == old(self)@.remove(conn_id)
                &&& exists|now: u64|
                    crate::session::sweep_outcome(
                        old(self)@[conn_id].tracker@,
                        now,
                        crate::session::texts(actions@),
                        final(self)@[conn_id].tracker@,
                    )
                &&& final(self)@[conn_id] == (SessionState {
                    tracker: final(self)@[conn_id].tracker,
                    ..old(self)@[conn_id]
                })
            },
    {
        broadcast use vstd::std_specs::hash::group_hash_axioms;
        let ghost before = self@;
        match self.sessions.remove(&conn_id) {
            None => {
                assert(self@ =~= before);
                Vec::new()
            },
            Some(mut session) => {
                let actions = session.tracker.sweep();
                self.sessions.insert(conn_id, session);
                assert(self@.remove(conn_id) =~= before.remove(conn_id));
                assert(self@.dom() =~= before.dom());
                actions
            },
        }
    }

    /// Hand a datagram to the session its connection id names. A datagram
    /// too short for an id, or whose id names no session, is dropped and
    /// changes nothing. A session that the datagram's outcome asks to drop
    /// (too many datagrams that did not decrypt) leaves the table.
    pub fn on_datagram(
        &mut self,
        datagram: &[u8],
        src_addr: String,
        now: u64,
        inject: bool,
        platform: InjectPlatform,
    ) -> (r: Option<DatagramOutcome>)
        requires
            table_ready(old(self)@),
        ensures
            table_ready(final(self)@),
            match datagram_conn_id_spec(datagram@) {
                None => r is None && final(self)@ == old(self)@,
                Some(id) => if !old(self)@.contains_key(id) {
                    r is None && final(self)@ == old(self)@
                } else {
                    &&& r matches Some(out) && out.note == datagram_note(old(self)@[id], datagram@)
                    &&& r->0.remove_session ==> final(self)@ == old(self)@.remove(id)
                    &&& !r->0.remove_session ==> {
                        &&& final(self)@.contains_key(id)
                        &&& final(self)@.remove(id) == old(self)@.remove(id)
                        &&& final(self)@[id].replay_window@ == datagram_payload(old(self)@[id], datagram@).1
                        &&& final(self)@[id].last_activity == now
                        &&& final(self)@[id].src_addr@ == src_addr@
                    }
                },
            },
    {
        broadcast use vstd::std_specs::hash::group_hash_axioms;
        let id = match datagram_conn_id(datagram) {
            Some(id) => id,
            None => return None,
        };
        let ghost before = self@;
        match self.sessions.remove(&id) {
            None => {
                assert(self@ =~= before);
                None
            },
            Some(mut session) => {
                assert(session_ready(before[id]));
                let out = session.on_datagram(datagram, src_addr, now, inject, platform);
                if !out.remove_session {
                    self.sessions.insert(id, session);
                    assert(self@.remove(id) =~= before.remove(id));
                }
                Some(out)
            },
        }
    }
}

/// A session is idle after this long without activity, in nanoseconds.
pub const SESSION_TIMEOUT_NS: u64 = 300_000_000_000;

/// Whether a session last active at `last_activity` has been idle too long
/// at `now`.
pub fn session_expired(last_activity: u64, now: u64) -> (b: bool)
    ensures
        b == (now > last_activity && now - last_activity > SESSION_TIMEOUT_NS),
{
    now > last_activity && now - last_activity > SESSION_TIMEOUT_NS
}

/// Clients must authenticate when the server requires it and has a
/// passphrase set.
pub fn auth_required(require_auth: bool, passphrase_hash: &str) -> (b: bool)
    ensures
        b == (require_auth && passphrase_hash@.len() > 0),
{
    require_auth && passphrase_hash.unicode_len() > 0
}

/// The challenge a server sends: the nonce and the salt of its passphrase
/// hash (empty when the hash has none).
pub fn auth_challenge(nonce: [u8; 32], passphrase_hash: &str) -> (m: ControlMsg)
    ensures
        m matches ControlMsg::AuthChallenge { nonce: n, salt } && n == nonce && salt@ == (match phc_salt(
            passphrase_hash@,
        ) {
            Some(s) => s,
            None => Seq::empty(),
        }),
{
    let salt = match extract_salt(passphrase_hash) {
        Some(s) => s,
        None => String::new(),
    };
    ControlMsg::AuthChallenge { nonce, salt }
}

/// The message that opens a session: its id and UUID, whether it encrypts,
/// whether the client authenticated, the key timeout and the screen size.
pub fn session_init(
    conn_id: u64,
    uuid: [u8; 16],
    encrypt: bool,
    require_auth: bool,
    passphrase_hash: &str,
    key_timeout_ms: u16,
    screen_width: u16,
    screen_height: u16,
) -> (m: ControlMsg)
    ensures
        m == (ControlMsg::SessionInit {
            conn_id,
            uuid,
            encrypt,
            auth: require_auth && passphrase_hash@.len() > 0,
            key_timeout_ms,
            screen_width,
            screen_height,
        }),
{
    ControlMsg::SessionInit {
        conn_id,
        uuid,
        encrypt,
        auth: auth_required(require_auth, passphrase_hash),
        key_timeout_ms,
        screen_width,
        screen_height,
    }
}

/// Where the server's side of the handshake stands.
#[derive(Debug, Clone, Copy)]
pub enum ServerStage {
    /// Nothing sent yet.
    Start,
    /// The challenge with this nonce was sent; the answer is awaited.
    AwaitResponse([u8; 32]),
    /// The client is let in: a session opens.
    Admitted,
    /// The client was turned away.
    Refused,
}

/// What the server does next on the control channel.
#[derive(Debug, Clone)]
pub enum ServerStep {
    /// Send the message and wait for the client's answer.
    Send(ControlMsg),
    /// Send the message, if any, then open a session and send its
    /// `SessionInit`.
    Admit(Option<ControlMsg>),
    /// Send the message, if any, then close the connection.
    Close(Option<ControlMsg>),
    /// Not a message for the handshake: nothing changes.
    Ignore,
}

/// The server's side of the control-channel handshake: the optional
/// passphrase challenge, then the session's setup.
pub struct ServerHandshake {
    pub stage: ServerStage,
    pub require_auth: bool,
    pub passphrase_hash: String,
    pub encrypt_udp: bool,
    pub key_timeout_ms: u16,
    pub screen_width: u16,
    pub screen_height: u16,
}

/// The server asks for the passphrase: it requires one and has one set.
pub open spec fn asks_passphrase(h: ServerHandshake) -> bool {
    h.require_auth && h.passphrase_hash@.len() > 0
}

/// The salt sent with a challenge: that of the passphrase hash, or empty.
pub open spec fn challenge_salt(phc: Seq<char>) -> Seq<char> {
    match phc_salt(phc) {
        Some(s) => s,
        None => Seq::empty(),
    }
}

/// `h2` is `h` at another stage.
pub open spec fn same_settings(h: ServerHandshake, h2: ServerHandshake) -> bool {
    h2 == (ServerHandshake { stage: h2.stage, ..h })
}

/// Opening the handshake with a fresh nonce: challenge the client where a
/// passphrase is asked, else let it in at once.
pub open spec fn server_begin_outcome(h: ServerHandshake, nonce: Seq<u8>, r: ServerStep, h2: ServerHandshake) -> bool {
    &&& same_settings(h, h2)
    &&& if h.stage != ServerStage::Start {
        r is Ignore && h2.stage == h.stage
    } else if asks_passphrase(h) {
        &&& h2.stage matches ServerStage::AwaitResponse(n) && n@ == nonce
        &&& r matches ServerStep::Send(ControlMsg::AuthChallenge { nonce: n, salt }) && n@ == nonce
            && salt@ == challenge_salt(h.passphrase_hash@)
    } else {
        r matches ServerStep::Admit(None) && h2.stage == ServerStage::Admitted
    }
}

/// The server's reaction to a client message during the handshake: a
/// response that matches the stored hash lets the client in after
/// `AuthResult { ok: true }`; any other answer gets `AuthResult { ok: false }`
/// and the connection closes, with no session.
pub open spec fn server_message_outcome(h: ServerHandshake, msg: ControlMsg, r: ServerStep, h2: ServerHandshake) -> bool {
    &&& same_settings(h, h2)
    &&& match h.stage {
        ServerStage::AwaitResponse(n) => {
            let ok = msg matches ControlMsg::AuthResponse { hmac }
                && server_expected(h.passphrase_hash@, n@) == Some(hmac@);
            if ok {
                r matches ServerStep::Admit(Some(ControlMsg::AuthResult { ok: true }))
                    && h2.stage == ServerStage::Admitted
            } else {
                r matches ServerStep::Close(Some(ControlMsg::AuthResult { ok: false }))
                    && h2.stage == ServerStage::Refused
            }
        },
        _ => r is Ignore && h2.stage == h.stage,
    }
}

impl ServerHandshake {
    /// A handshake for a server with these settings, before anything is sent.
    pub fn new(
        require_auth: bool,
        passphrase_hash: String,
        encrypt_udp: bool,
        key_timeout_ms: u16,
        screen_width: u16,
        screen_height: u16,
    ) -> (h: Self)
        ensures
            h == (ServerHandshake {
                stage: ServerStage::Start,
                require_auth,
                passphrase_hash,
                encrypt_udp,
                key_timeout_ms,
                screen_width,
                screen_height,
            }),
    {
        ServerHandshake {
            stage: ServerStage::Start,
            require_auth,
            passphrase_hash,
            encrypt_udp,
            key_timeout_ms,
            screen_width,
            screen_height,
        }
    }

    /// Open the handshake, with a fresh random nonce for the challenge.
    pub fn begin(&mut self, nonce: [u8; 32]) -> (r: ServerStep)
        ensures
            server_begin_outcome(*old(self), nonce@, r, *final(self)),
    {
        if !matches!(self.stage, ServerStage::Start) {
            return ServerStep::Ignore;
        }
        if auth_required(self.require_auth, self.passphrase_hash.as_str()) {
            self.stage = ServerStage::AwaitResponse(nonce);
            ServerStep::Send(auth_challenge(nonce, self.passphrase_hash.as_str()))
        } else {
            self.stage = ServerStage::Admitted;
            ServerStep::Admit(None)
        }
    }

    /// React to the client's next control message.
    pub fn on_message(&mut self, msg: ControlMsg) -> (r: ServerStep)
        ensures
            server_message_outcome(*old(self), msg, r, *final(self)),
    {
        match self.stage {
            ServerStage::AwaitResponse(nonce) => {
                let ok = match msg {
                    ControlMsg::AuthResponse { hmac } => server_verify_response(
                        self.passphrase_hash.as_str(),
                        &nonce,
                        &hmac,
                    ),
                    _ => false,
                };
                if ok {
                    self.stage = ServerStage::Admitted;
                    ServerStep::Admit(Some(ControlMsg::AuthResult { ok: true }))
                } else {
                    self.stage = ServerStage::Refused;
                    ServerStep::Close(Some(ControlMsg::AuthResult { ok: false }))
                }
            },
            _ => ServerStep::Ignore,
        }
    }

    /// The `SessionInit` of the session opened for an admitted client.
    pub fn session_init(&self, conn_id: u64, uuid: [u8; 16]) -> (m: ControlMsg)
        ensures
            m == (ControlMsg::SessionInit {
                conn_id,
                uuid,
                encrypt: self.encrypt_udp,
                auth: asks_passphrase(*self),
                key_timeout_ms: self.key_timeout_ms,
                screen_width: self.screen_width,
                screen_height: self.screen_height,
            }),
    {
        session_init(
            conn_id,
            uuid,
            self.encrypt_udp,
            self.require_auth,
            self.passphrase_hash.as_str(),
            self.key_timeout_ms,
            self.screen_width,
            self.screen_height,
        )
    }
}

/// A server that asks for a passphrase lets a client in only after a
/// response that matches its stored hash for the nonce it sent.
pub proof fn lemma_admitted_only_when_verified(h: ServerHandshake, msg: ControlMsg, r: ServerStep, h2: ServerHandshake)
    requires
        server_message_outcome(h, msg, r, h2),
        r is Admit,
    ensures
        h.stage matches ServerStage::AwaitResponse(n) && msg matches ControlMsg::AuthResponse { hmac }
            && server_expected(h.passphrase_hash@, n@) == Some(hmac@),
        h2.stage == ServerStage::Admitted,
{
}

/// A client that holds the passphrase whose hash the server stores, and has
/// no saved hash, answers the server's challenge with the response the
/// server expects, and the server lets it in.
pub proof fn lemma_passphrase_admitted(
    h: ServerHandshake,
    nonce: Seq<u8>,
    challenge: ServerStep,
    h1: ServerHandshake,
    c: ClientHandshake,
    reply: HandshakeStep,
    c1: ClientHandshake,
)
    requires
        h.stage == ServerStage::Start,
        asks_passphrase(h),
        server_begin_outcome(h, nonce, challenge, h1),
        c.stage == HandshakeStage::AwaitFirst,
        c.require_auth,
        c.saved_phc is None,
        c.passphrase matches Some(p) && hashed_passphrase(p@, h.passphrase_hash@),
        handshake_outcome(c, challenge->Send_0, reply, c1),
    ensures
        reply matches HandshakeStep::Reply(ControlMsg::AuthResponse { hmac })
            && server_expected(h.passphrase_hash@, nonce) == Some(hmac@),
        c1.stage == HandshakeStage::AwaitAuthResult,
        forall|r: ServerStep, h2: ServerHandshake|
            #[trigger] server_message_outcome(h1, reply->Reply_0, r, h2) ==> (r matches ServerStep::Admit(
                Some(ControlMsg::AuthResult { ok: true }),
            )),
{
    let phc = h.passphrase_hash@;
    let pass = c.passphrase->0@;
    let salt = choose|salt: Seq<char>|
        salt_hashes_all(salt) && match #[trigger] argon2_phc(pass, salt) {
            Some(q) => phc == q && phc_salt(q) == Some(salt) && phc_hash(q) is Some,
            None => phc == Seq::<char>::empty(),
        };
    assert(argon2_phc(pass, salt) == Some(phc));
    assert(challenge_salt(phc) == salt);
}

/// A key or wheel event with a nonzero sequence number takes effect once:
/// taken again right after, as its redundant copy would be, it is dropped,
/// injecting and reporting nothing and changing nothing.
pub proof fn lemma_duplicate_event_dropped(
    st: PrimaryState,
    key_cap: nat,
    e: Event,
    now1: u64,
    now2: u64,
    inject: bool,
    w: u16,
    h: u16,
    p: InjectPlatform,
)
    requires
        key_cap > 0,
        event_seq(e) matches Some(n) && n != 0,
    ensures
        ({
            let s1 = primary_event(st, key_cap, e, now1, inject, w, h, p).0;
            primary_event(s1, key_cap, e, now2, inject, w, h, p) == (
                s1,
                Seq::<Injection>::empty(),
                Seq::<(Event, Seq<Seq<char>>)>::empty(),
            )
        }),
{
    let n = event_seq(e)->0;
    let s1 = primary_event(st, key_cap, e, now1, inject, w, h, p).0;
    if !st.key_history.contains(n as u16) {
        let kh = history_after_push(st.key_history, key_cap, n as u16);
        assert(kh.last() == n as u16);
        assert(kh.contains(n as u16));
    }
    assert(s1.key_history.contains(n as u16));
}

/// A redundant batch whose sequence base was seen before moves nothing
/// and leaves the history as it was.
pub proof fn lemma_seen_redundant_batch_skipped(
    hist: Seq<u16>,
    cap: nat,
    es: Seq<Event>,
    base: u16,
    inject: bool,
    w: u16,
    h: u16,
)
    requires
        hist.contains(base),
    ensures
        redundant_pass(hist, cap, seq![(es, base)], inject, w, h) == (hist, Seq::<Injection>::empty()),
{
    let rev = seq![(es, base)];
    assert(rev.drop_last() =~= Seq::<(Seq<Event>, u16)>::empty());
    assert(redundant_pass(hist, cap, rev.drop_last(), inject, w, h) == (hist, Seq::<Injection>::empty()));
}

/// Once a batch that moves the pointer was the current batch, its base is
/// remembered (where mouse batches are remembered at all), so its redundant
/// copies in later datagrams are skipped.
pub proof fn lemma_current_mouse_batch_remembered(hist: Seq<u16>, cap: nat, base: u16)
    requires
        cap > 0,
    ensures
        history_after_push(hist, cap, base).contains(base),
{
    let r = history_after_push(hist, cap, base);
    assert(r.last() == base);
    assert(r[r.len() - 1] == base);
}

/// A mouse button event of the current batch, taken while injecting, is
/// injected as a press of its button when it says pressed and as a release
/// when it says released, whatever the state; the tracker then holds the
/// button exactly when it was pressed.
pub proof fn lemma_button_event_injected(
    st: PrimaryState,
    key_cap: nat,
    button: u8,
    pressed: bool,
    now: u64,
    w: u16,
    h: u16,
    p: InjectPlatform,
)
    ensures
        ({
            let (st2, inj, _) = primary_event(st, key_cap, Event::MouseButton { button, pressed }, now, true, w, h, p);
            &&& pressed ==> inj == seq![Injection::ButtonDown(platform_button(button, p))]
            &&& !pressed ==> inj == seq![Injection::ButtonUp(platform_button(button, p))]
            &&& st2.tracker.buttons.contains_key(button) == pressed
        }),
{
}

/// A key event of the current batch that is new (sequence number 0, or
/// not among the recent ones) is injected, when injecting, as a press or
/// release of its own key, in the direction it says; its sequence number is
/// remembered.
pub proof fn lemma_key_event_injected(
    st: PrimaryState,
    key_cap: nat,
    code: u16,
    s: u8,
    down: bool,
    now: u64,
    w: u16,
    h: u16,
    p: InjectPlatform,
)
    requires
        s == 0 || !st.key_history.contains(s as u16),
    ensures
        ({
            let e = if down { Event::KeyDown(code, s) } else { Event::KeyUp(code, s) };
            let (st2, inj, reports) = primary_event(st, key_cap, e, now, true, w, h, p);
            &&& inj == seq![if down { Injection::KeyDown(code) } else { Injection::KeyUp(code) }]
            &&& reports.len() == 1 && reports[0].0 == e
            &&& down ==> st2.tracker.keys.contains_key(code)
            &&& !down ==> !st2.tracker.keys.contains_key(code)
        }),
{
    let e = if down { Event::KeyDown(code, s) } else { Event::KeyUp(code, s) };
    crate::session::lemma_key_up_lets_go(st.tracker, code, s, now);
}

} // verus!
