//! The named-key protocol: input events that carry key names, sent one per
//! UDP datagram, and the TCP control handshake (Hello, HelloAck, Auth,
//! AuthAck or AuthFailed) that admits a client, in length-prefixed frames.

use vstd::prelude::*;
use vstd::slice::{slice_subrange, slice_to_vec};
use vstd::string::StringExecFns;
use vstd::utf8::{decode_utf8, encode_utf8, valid_utf8};
use crate::config::{argon2_phc, extract_salt, hash_passphrase_with_salt, phc_salt};
use crate::net::{from_le, hi, le16, le_bytes, lo};
use crate::assoc::{assoc_map, distinct_keys, lemma_assoc_contains, lemma_assoc_remove, lemma_assoc_update};
use crate::text::{decimal, push_decimal, push_signed, signed_decimal, str_eq};

verus! {

broadcast use {vstd::utf8::encode_utf8_valid_utf8, vstd::utf8::encode_utf8_decode_utf8};

/// Protocol version that this side speaks.
pub const PROTOCOL_VERSION: u16 = 1;
/// Feature bits that this side supports.
pub const FEATURES: u32 = 0;

pub const TAG_KEY_DOWN: u8 = 0x01;
pub const TAG_KEY_UP: u8 = 0x02;
pub const TAG_MOUSE_MOVE: u8 = 0x03;
pub const TAG_MOUSE_BUTTON: u8 = 0x04;
pub const TAG_WHEEL: u8 = 0x05;
pub const TAG_KEY_REPEAT: u8 = 0x06;
pub const TAG_HEARTBEAT: u8 = 0x07;

pub const CTRL_HELLO: u8 = 0x01;
pub const CTRL_HELLO_ACK: u8 = 0x02;
pub const CTRL_AUTH_FAILED: u8 = 0x03;
pub const CTRL_AUTH: u8 = 0x04;
pub const CTRL_AUTH_ACK: u8 = 0x05;

/// An input event with its key named.
#[allow(inconsistent_fields)]
#[derive(Debug, Clone, PartialEq, Eq)]
pub enum Event {
    KeyDown(String),
    KeyUp(String),
    MouseMove { dx: i16, dy: i16 },
    MouseButton { button: u8, pressed: bool },
    Wheel { dx: i8, dy: i8 },
    KeyRepeat(String),
    Heartbeat,
}

/// An event with its key name taken as characters.
#[allow(inconsistent_fields)]
pub enum EventView {
    KeyDown(Seq<char>),
    KeyUp(Seq<char>),
    MouseMove { dx: i16, dy: i16 },
    MouseButton { button: u8, pressed: bool },
    Wheel { dx: i8, dy: i8 },
    KeyRepeat(Seq<char>),
    Heartbeat,
}

impl View for Event {
    type V = EventView;

    open spec fn view(&self) -> EventView {
        match self {
            Event::KeyDown(n) => EventView::KeyDown(n@),
            Event::KeyUp(n) => EventView::KeyUp(n@),
            Event::MouseMove { dx, dy } => EventView::MouseMove { dx: *dx, dy: *dy },
            Event::MouseButton { button, pressed } => EventView::MouseButton { button: *button, pressed: *pressed },
            Event::Wheel { dx, dy } => EventView::Wheel { dx: *dx, dy: *dy },
            Event::KeyRepeat(n) => EventView::KeyRepeat(n@),
            Event::Heartbeat => EventView::Heartbeat,
        }
    }
}

// ---------------------------------------------------------------------------
// Byte format
// ---------------------------------------------------------------------------

/// How many bytes of a name's UTF-8 encoding are sent: at most 255.
pub open spec fn name_len(n: Seq<char>) -> nat {
    let b = encode_utf8(n);
    if b.len() <= 255 {
        b.len()
    } else {
        255
    }
}

/// A name on the wire: its length byte and that many bytes of its UTF-8
/// encoding.
pub open spec fn name_field(n: Seq<char>) -> Seq<u8> {
    seq![name_len(n) as u8] + encode_utf8(n).take(name_len(n) as int)
}

/// The bytes of one event.
pub open spec fn event_bytes(e: EventView) -> Seq<u8> {
    match e {
        EventView::KeyDown(n) => seq![TAG_KEY_DOWN] + name_field(n),
        EventView::KeyUp(n) => seq![TAG_KEY_UP] + name_field(n),
        EventView::KeyRepeat(n) => seq![TAG_KEY_REPEAT] + name_field(n),
        EventView::MouseMove { dx, dy } => seq![
            TAG_MOUSE_MOVE,
            lo(dx as u16),
            hi(dx as u16),
            lo(dy as u16),
            hi(dy as u16),
        ],
        EventView::MouseButton { button, pressed } => seq![
            TAG_MOUSE_BUTTON,
            button,
            if pressed { 1u8 } else { 0u8 },
        ],
        EventView::Wheel { dx, dy } => seq![TAG_WHEEL, dx as u8, dy as u8],
        EventView::Heartbeat => seq![TAG_HEARTBEAT],
    }
}

/// The name at the start of `rest`: a length byte and that many bytes of
/// valid UTF-8.
pub open spec fn name_from(rest: Seq<u8>) -> Option<Seq<char>> {
    if rest.len() >= 1 && rest.len() - 1 >= rest[0] {
        let b = rest.subrange(1, 1 + rest[0] as int);
        if valid_utf8(b) {
            Some(decode_utf8(b))
        } else {
            None
        }
    } else {
        None
    }
}

/// The event that `buf` starts with, if any.
pub open spec fn event_from(buf: Seq<u8>) -> Option<EventView> {
    if buf.len() == 0 {
        None
    } else {
        let tag = buf[0];
        let rest = buf.drop_first();
        if tag == TAG_KEY_DOWN {
            match name_from(rest) {
                Some(n) => Some(EventView::KeyDown(n)),
                None => None,
            }
        } else if tag == TAG_KEY_UP {
            match name_from(rest) {
                Some(n) => Some(EventView::KeyUp(n)),
                None => None,
            }
        } else if tag == TAG_KEY_REPEAT {
            match name_from(rest) {
                Some(n) => Some(EventView::KeyRepeat(n)),
                None => None,
            }
        } else if tag == TAG_MOUSE_MOVE {
            if rest.len() >= 4 {
                Some(
                    EventView::MouseMove {
                        dx: le16(rest[0], rest[1]) as i16,
                        dy: le16(rest[2], rest[3]) as i16,
                    },
                )
            } else {
                None
            }
        } else if tag == TAG_MOUSE_BUTTON {
            if rest.len() >= 2 {
                Some(EventView::MouseButton { button: rest[0], pressed: rest[1] != 0 })
            } else {
                None
            }
        } else if tag == TAG_WHEEL {
            if rest.len() >= 2 {
                Some(EventView::Wheel { dx: rest[0] as i8, dy: rest[1] as i8 })
            } else {
                None
            }
        } else if tag == TAG_HEARTBEAT {
            Some(EventView::Heartbeat)
        } else {
            None
        }
    }
}

/// A name shorter than 256 bytes in UTF-8.
pub open spec fn short_name(e: EventView) -> bool {
    match e {
        EventView::KeyDown(n) => encode_utf8(n).len() <= 255,
        EventView::KeyUp(n) => encode_utf8(n).len() <= 255,
        EventView::KeyRepeat(n) => encode_utf8(n).len() <= 255,
        _ => true,
    }
}

/// Converts bytes to a `String` with `String::from_utf8`: `Some` exactly
/// when the bytes are valid UTF-8, with the characters they encode.
#[verifier::external_body]
fn string_from_utf8(bytes: Vec<u8>) -> (r: Option<String>)
    ensures
        r is Some <==> valid_utf8(bytes@),
        r matches Some(s) ==> s@ == decode_utf8(bytes@),
{
    String::from_utf8(bytes).ok()
}

/// Appends a name to `buf`: its length (at most 255) and that many bytes.
pub fn push_name(buf: &mut Vec<u8>, name: &str)
    ensures
        final(buf)@ == old(buf)@ + name_field(name@),
{
    let bytes = name.as_bytes();
    let len: usize = if bytes.len() <= 255 { bytes.len() } else { 255 };
    buf.push(len as u8);
    let ghost start = buf@;
    let mut i: usize = 0;
    while i < len
        invariant
            i <= len,
            len <= bytes@.len(),
            bytes@ == encode_utf8(name@),
            buf@ == start + bytes@.take(i as int),
        decreases len - i,
    {
        buf.push(bytes[i]);
        proof {
            assert(bytes@.take(i + 1) =~= bytes@.take(i as int).push(bytes@[i as int]));
        }
        i += 1;
    }
    proof {
        assert(final(buf)@ =~= old(buf)@ + name_field(name@));
    }
}

/// The name at the start of `rest`, if its bytes are there and valid UTF-8.
pub fn read_name(rest: &[u8]) -> (r: Option<String>)
    ensures
        match r {
            Some(s) => name_from(rest@) == Some(s@),
            None => name_from(rest@) is None,
        },
{
    match read_name_split(rest) {
        Some((s, _)) => Some(s),
        None => None,
    }
}

/// The name at the start of `rest` and the bytes after it.
pub fn read_name_split(rest: &[u8]) -> (r: Option<(String, &[u8])>)
    ensures
        match r {
            Some((s, tail)) => name_from(rest@) == Some(s@) && tail@ == rest@.skip(1 + rest@[0]),
            None => name_from(rest@) is None,
        },
{
    if rest.len() == 0 {
        return None;
    }
    let len = rest[0] as usize;
    if rest.len() - 1 < len {
        return None;
    }
    let bytes = slice_to_vec(slice_subrange(rest, 1, 1 + len));
    let tail = slice_subrange(rest, 1 + len, rest.len());
    match string_from_utf8(bytes) {
        Some(s) => {
            assert(tail@ =~= rest@.skip(1 + rest@[0]));
            Some((s, tail))
        },
        None => None,
    }
}

impl Event {
    /// Appends the encoding of the event to `buf`.
    pub fn encode(&self, buf: &mut Vec<u8>)
        ensures
            final(buf)@ == old(buf)@ + event_bytes(self@),
    {
        match self {
            Event::KeyDown(name) => {
                buf.push(TAG_KEY_DOWN);
                push_name(buf, name.as_str());
            },
            Event::KeyUp(name) => {
                buf.push(TAG_KEY_UP);
                push_name(buf, name.as_str());
            },
            Event::KeyRepeat(name) => {
                buf.push(TAG_KEY_REPEAT);
                push_name(buf, name.as_str());
            },
            Event::MouseMove { dx, dy } => {
                let (a, b) = le_bytes(*dx as u16);
                let (c, d) = le_bytes(*dy as u16);
                buf.push(TAG_MOUSE_MOVE);
                buf.push(a);
                buf.push(b);
                buf.push(c);
                buf.push(d);
            },
            Event::MouseButton { button, pressed } => {
                buf.push(TAG_MOUSE_BUTTON);
                buf.push(*button);
                buf.push(if *pressed { 1 } else { 0 });
            },
            Event::Wheel { dx, dy } => {
                buf.push(TAG_WHEEL);
                buf.push(*dx as u8);
                buf.push(*dy as u8);
            },
            Event::Heartbeat => {
                buf.push(TAG_HEARTBEAT);
            },
        }
        proof {
            assert(final(buf)@ =~= old(buf)@ + event_bytes(self@));
        }
    }

    /// Decode the event that `buf` starts with.
    pub fn decode(buf: &[u8]) -> (r: Option<Event>)
        ensures
            match r {
                Some(e) => event_from(buf@) == Some(e@),
                None => event_from(buf@) is None,
            },
    {
        if buf.len() == 0 {
            return None;
        }
        let tag = buf[0];
        let rest = slice_subrange(buf, 1, buf.len());
        assert(rest@ =~= buf@.drop_first());
        if tag == TAG_KEY_DOWN {
            match read_name(rest) {
                Some(n) => Some(Event::KeyDown(n)),
                None => None,
            }
        } else if tag == TAG_KEY_UP {
            match read_name(rest) {
                Some(n) => Some(Event::KeyUp(n)),
                None => None,
            }
        } else if tag == TAG_KEY_REPEAT {
            match read_name(rest) {
                Some(n) => Some(Event::KeyRepeat(n)),
                None => None,
            }
        } else if tag == TAG_MOUSE_MOVE {
            if rest.len() >= 4 {
                Some(
                    Event::MouseMove {
                        dx: from_le(rest[0], rest[1]) as i16,
                        dy: from_le(rest[2], rest[3]) as i16,
                    },
                )
            } else {
                None
            }
        } else if tag == TAG_MOUSE_BUTTON {
            if rest.len() >= 2 {
                Some(Event::MouseButton { button: rest[0], pressed: rest[1] != 0 })
            } else {
                None
            }
        } else if tag == TAG_WHEEL {
            if rest.len() >= 2 {
                Some(Event::Wheel { dx: rest[0] as i8, dy: rest[1] as i8 })
            } else {
                None
            }
        } else if tag == TAG_HEARTBEAT {
            Some(Event::Heartbeat)
        } else {
            None
        }
    }
}

/// A name of at most 255 bytes reads back as itself.
proof fn lemma_name_roundtrip(n: Seq<char>, tail: Seq<u8>)
    requires
        encode_utf8(n).len() <= 255,
    ensures
        name_from(name_field(n) + tail) == Some(n),
{
    let b = encode_utf8(n);
    let f = name_field(n) + tail;
    assert(b.take(b.len() as int) =~= b);
    assert(f.subrange(1, 1 + f[0] as int) =~= b);
}

/// Decoding an encoded event gives the event back, whatever follows it,
/// when its key name (if any) fits the 255 bytes a name may take.
pub proof fn lemma_event_roundtrip(e: EventView, tail: Seq<u8>)
    requires
        short_name(e),
    ensures
        event_from(event_bytes(e) + tail) == Some(e),
{
    let b = event_bytes(e) + tail;
    match e {
        EventView::KeyDown(n) => {
            lemma_name_roundtrip(n, tail);
            assert(b.drop_first() =~= name_field(n) + tail);
        },
        EventView::KeyUp(n) => {
            lemma_name_roundtrip(n, tail);
            assert(b.drop_first() =~= name_field(n) + tail);
        },
        EventView::KeyRepeat(n) => {
            lemma_name_roundtrip(n, tail);
            assert(b.drop_first() =~= name_field(n) + tail);
        },
        EventView::MouseMove { dx, dy } => {
            assert(le16(lo(dx as u16), hi(dx as u16)) == dx as u16);
            assert(le16(lo(dy as u16), hi(dy as u16)) == dy as u16);
            assert((dx as u16) as i16 == dx) by (bit_vector);
            assert((dy as u16) as i16 == dy) by (bit_vector);
        },
        EventView::Wheel { dx, dy } => {
            assert((dx as u8) as i8 == dx) by (bit_vector);
            assert((dy as u8) as i8 == dy) by (bit_vector);
        },
        _ => {},
    }
}

// ---------------------------------------------------------------------------
// Frames and errors
// ---------------------------------------------------------------------------

/// Why a connection attempt or a control exchange failed, in the terms of
/// the I/O error kinds that report it.
#[derive(Debug, Clone, Copy, PartialEq, Eq)]
pub enum ProtocolError {
    InvalidData(&'static str),
    InvalidInput(&'static str),
    PermissionDenied(&'static str),
}

/// A protocol violation with its message.
pub fn protocol_err(msg: &'static str) -> (e: ProtocolError)
    ensures
        e == ProtocolError::InvalidData(msg),
{
    ProtocolError::InvalidData(msg)
}

/// The largest payload a frame can carry.
pub const MAX_FRAME: usize = 65535;

/// A frame: the payload's length as two little-endian bytes, then the
/// payload.
pub open spec fn frame_bytes(payload: Seq<u8>) -> Seq<u8> {
    seq![lo(payload.len() as u16), hi(payload.len() as u16)] + payload
}

/// Frame a payload; a payload over 65535 bytes is refused.
pub fn encode_frame(payload: &[u8]) -> (r: Result<Vec<u8>, ProtocolError>)
    ensures
        payload@.len() <= MAX_FRAME ==> (r matches Ok(f) && f@ == frame_bytes(payload@)),
        payload@.len() > MAX_FRAME ==> r == Err::<Vec<u8>, ProtocolError>(
            ProtocolError::InvalidInput("frame too large"),
        ),
{
    if payload.len() > MAX_FRAME {
        return Err(ProtocolError::InvalidInput("frame too large"));
    }
    let (a, b) = le_bytes(payload.len() as u16);
    let mut f: Vec<u8> = Vec::new();
    f.push(a);
    f.push(b);
    let mut i: usize = 0;
    while i < payload.len()
        invariant
            i <= payload@.len(),
            f@ == seq![a, b] + payload@.take(i as int),
        decreases payload@.len() - i,
    {
        f.push(payload[i]);
        proof {
            assert(payload@.take(i + 1) =~= payload@.take(i as int).push(payload@[i as int]));
        }
        i += 1;
    }
    assert(payload@.take(payload@.len() as int) =~= payload@);
    Ok(f)
}

/// The payload length that a frame header announces.
pub fn frame_len(header: [u8; 2]) -> (n: usize)
    ensures
        n == le16(header@[0], header@[1]),
{
    from_le(header[0], header[1]) as usize
}

// ---------------------------------------------------------------------------
// Control handshake
// ---------------------------------------------------------------------------

/// Little-endian bytes of a `u32`.
pub open spec fn le32_bytes(v: u32) -> Seq<u8> {
    seq![(v % 256) as u8, ((v / 256) % 256) as u8, ((v / 65536) % 256) as u8, (v / 16777216) as u8]
}

/// The `u32` with little-endian bytes `b[0..4]`.
pub open spec fn le32_value(b: Seq<u8>) -> u32 {
    (b[0] + 256 * b[1] + 65536 * b[2] + 16777216 * b[3]) as u32
}

fn push_u32(buf: &mut Vec<u8>, v: u32)
    ensures
        final(buf)@ == old(buf)@ + le32_bytes(v),
{
    buf.push((v % 256) as u8);
    buf.push(((v / 256) % 256) as u8);
    buf.push(((v / 65536) % 256) as u8);
    buf.push((v / 16777216) as u8);
    assert(final(buf)@ =~= old(buf)@ + le32_bytes(v));
}

fn read_u32(b: &[u8], at: usize) -> (v: u32)
    requires
        at + 4 <= b@.len(),
    ensures
        v == le32_value(b@.subrange(at as int, at + 4)),
{
    let v = (b[at] as u64) + 256 * (b[at + 1] as u64) + 65536 * (b[at + 2] as u64) + 16777216 * (
    b[at + 3] as u64);
    v as u32
}

/// The Hello payload: tag, our protocol version and features.
pub open spec fn hello_payload() -> Seq<u8> {
    seq![CTRL_HELLO, lo(PROTOCOL_VERSION), hi(PROTOCOL_VERSION)] + le32_bytes(FEATURES)
}

/// The Hello payload that a client sends first.
pub fn hello() -> (p: Vec<u8>)
    ensures
        p@ == hello_payload(),
{
    let mut p: Vec<u8> = Vec::new();
    let (a, b) = le_bytes(PROTOCOL_VERSION);
    p.push(CTRL_HELLO);
    p.push(a);
    p.push(b);
    push_u32(&mut p, FEATURES);
    assert(p@ =~= hello_payload());
    p
}

/// The client's version and features from a Hello payload.
pub open spec fn hello_from(p: Seq<u8>) -> Option<(u16, u32)> {
    if p.len() >= 7 && p[0] == CTRL_HELLO {
        Some((le16(p[1], p[2]), le32_value(p.subrange(3, 7))))
    } else {
        None
    }
}

/// Read a Hello payload: the client's version and features.
pub fn parse_hello(p: &[u8]) -> (r: Option<(u16, u32)>)
    ensures
        r == hello_from(p@),
{
    if p.len() >= 7 && p[0] == CTRL_HELLO {
        Some((from_le(p[1], p[2]), read_u32(p, 3)))
    } else {
        None
    }
}

/// The version and features both sides speak: the lower version, the
/// common features.
pub open spec fn negotiated(client_version: u16, client_features: u32) -> (u16, u32) {
    (
        if client_version < PROTOCOL_VERSION { client_version } else { PROTOCOL_VERSION },
        client_features & FEATURES,
    )
}

/// The HelloAck payload: tag, negotiated version and features, the key
/// timeout, and the passphrase hash (empty when no authentication is
/// required).
pub open spec fn hello_ack_payload(version: u16, features: u32, key_timeout_ms: u16, hash: Seq<char>) -> Seq<u8> {
    seq![CTRL_HELLO_ACK, lo(version), hi(version)] + le32_bytes(features) + seq![
        lo(key_timeout_ms),
        hi(key_timeout_ms),
    ] + name_field(hash)
}

/// What the server answers a control connection with, step by step.
#[derive(Debug, Clone, PartialEq, Eq)]
pub enum ControlReply {
    /// Send this payload and wait for the next message.
    Send(Vec<u8>),
    /// Send this payload and close the connection.
    SendAndClose(Vec<u8>),
    /// The client is admitted: send this payload and keep the connection.
    Admit(Vec<u8>),
    /// Close the connection without a reply.
    Close,
}

/// The server side of the control handshake.
#[derive(Debug, Clone, PartialEq, Eq)]
pub struct ServerHandshake {
    pub key_timeout_ms: u16,
    pub require_auth: bool,
    pub passphrase_hash: String,
}

impl ServerHandshake {
    /// Answer a Hello: a HelloAck with the negotiated version and features,
    /// the key timeout, and the passphrase hash when authentication is
    /// required (else an empty one); close after it when no version is
    /// shared. Anything but a Hello closes the connection.
    pub fn on_hello(&self, payload: &[u8]) -> (r: ControlReply)
        ensures
            match hello_from(payload@) {
                None => r == ControlReply::Close,
                Some((v, f)) => {
                    let (nv, nf) = negotiated(v, f);
                    let ack = hello_ack_payload(
                        nv,
                        nf,
                        self.key_timeout_ms,
                        if self.require_auth { self.passphrase_hash@ } else { Seq::empty() },
                    );
                    if nv == 0 {
                        (r matches ControlReply::SendAndClose(p) && p@ == ack)
                    } else {
                        (r matches ControlReply::Send(p) && p@ == ack)
                    }
                },
            },
    {
        let (v, f) = match parse_hello(payload) {
            Some(x) => x,
            None => return ControlReply::Close,
        };
        let nv = if v < PROTOCOL_VERSION { v } else { PROTOCOL_VERSION };
        let nf = f & FEATURES;
        let mut ack: Vec<u8> = Vec::new();
        ack.push(CTRL_HELLO_ACK);
        let (a, b) = le_bytes(nv);
        ack.push(a);
        ack.push(b);
        push_u32(&mut ack, nf);
        let (c, d) = le_bytes(self.key_timeout_ms);
        ack.push(c);
        ack.push(d);
        if self.require_auth {
            push_name(&mut ack, self.passphrase_hash.as_str());
        } else {
            push_name(&mut ack, "");
            proof {
                reveal_strlit("");
            }
        }
        proof {
            let h = if self.require_auth { self.passphrase_hash@ } else { Seq::empty() };
            assert(ack@ =~= hello_ack_payload(nv, nf, self.key_timeout_ms, h));
        }
        if nv == 0 {
            ControlReply::SendAndClose(ack)
        } else {
            ControlReply::Send(ack)
        }
    }

    /// Answer an Auth message: with authentication required, a hash other
    /// than the passphrase hash is refused with AuthFailed; otherwise the
    /// client is admitted with AuthAck. Anything but a readable Auth closes
    /// the connection.
    pub fn on_auth(&self, payload: &[u8]) -> (r: ControlReply)
        ensures
            match auth_from(payload@) {
                None => r == ControlReply::Close,
                Some(h) => if self.require_auth && h != self.passphrase_hash@ {
                    (r matches ControlReply::SendAndClose(p) && p@ == seq![CTRL_AUTH_FAILED])
                } else {
                    (r matches ControlReply::Admit(p) && p@ == seq![CTRL_AUTH_ACK])
                },
            },
    {
        if payload.len() == 0 || payload[0] != CTRL_AUTH {
            return ControlReply::Close;
        }
        let rest = slice_subrange(payload, 1, payload.len());
        assert(rest@ =~= payload@.drop_first());
        let client_hash = match read_name(rest) {
            Some(h) => h,
            None => return ControlReply::Close,
        };
        if self.require_auth && !str_eq(client_hash.as_str(), self.passphrase_hash.as_str()) {
            ControlReply::SendAndClose(vec![CTRL_AUTH_FAILED])
        } else {
            ControlReply::Admit(vec![CTRL_AUTH_ACK])
        }
    }
}

/// The hash that an Auth payload carries.
pub open spec fn auth_from(p: Seq<u8>) -> Option<Seq<char>> {
    if p.len() >= 1 && p[0] == CTRL_AUTH {
        name_from(p.drop_first())
    } else {
        None
    }
}

/// The Auth payload for a hash.
pub open spec fn auth_payload(hash: Seq<char>) -> Seq<u8> {
    seq![CTRL_AUTH] + name_field(hash)
}

/// The Auth payload that carries the client's hash.
pub fn auth_message(hash: &str) -> (p: Vec<u8>)
    ensures
        p@ == auth_payload(hash@),
{
    let mut p: Vec<u8> = Vec::new();
    p.push(CTRL_AUTH);
    push_name(&mut p, hash);
    assert(p@ =~= auth_payload(hash@));
    p
}

/// What a client learns from the server's HelloAck.
#[derive(Debug, Clone, PartialEq, Eq)]
pub struct HelloAck {
    pub version: u16,
    pub features: u32,
    pub key_timeout_ms: u16,
    pub server_hash: String,
}

/// The key timeout used when a HelloAck carries none: 1000 ms.
pub const DEFAULT_KEY_TIMEOUT_MS: u16 = 1000;

/// A HelloAck whose key timeout field is cut short makes the reading of the
/// hash after it index past the end.
pub open spec fn ack_readable(p: Seq<u8>) -> bool {
    !(p.len() >= 1 && p[0] == CTRL_HELLO_ACK && (p.len() == 7 || p.len() == 8))
}

/// The outcome of reading a HelloAck payload, with the hash as characters.
pub open spec fn hello_ack_from(p: Seq<u8>) -> Result<(u16, u32, u16, Seq<char>), ProtocolError> {
    if p.len() == 0 {
        Err(ProtocolError::InvalidData("empty ack"))
    } else if p[0] != CTRL_HELLO_ACK {
        Err(ProtocolError::InvalidData("expected HelloAck"))
    } else if p.len() < 7 {
        Err(ProtocolError::InvalidData("short ack"))
    } else {
        let version = le16(p[1], p[2]);
        let features = le32_value(p.subrange(3, 7));
        let timeout = if p.len() >= 9 { le16(p[7], p[8]) } else { DEFAULT_KEY_TIMEOUT_MS };
        match name_from(p.skip(9)) {
            None => Err(ProtocolError::InvalidData("missing hash")),
            Some(h) => if version == 0 {
                Err(ProtocolError::InvalidData("incompatible protocol version"))
            } else {
                Ok((version, features, timeout, h))
            },
        }
    }
}

impl HelloAck {
    /// Read a HelloAck: version, features, key timeout (1000 ms when the
    /// field is missing) and the server's passphrase hash; a version of 0
    /// is refused as incompatible.
    pub fn parse(p: &[u8]) -> (r: Result<HelloAck, ProtocolError>)
        requires
            ack_readable(p@),
        ensures
            match (r, hello_ack_from(p@)) {
                (Ok(a), Ok((v, f, t, h))) => a.version == v && a.features == f && a.key_timeout_ms == t
                    && a.server_hash@ == h,
                (Err(e), Err(e2)) => e == e2,
                _ => false,
            },
    {
        if p.len() == 0 {
            return Err(protocol_err("empty ack"));
        }
        if p[0] != CTRL_HELLO_ACK {
            return Err(protocol_err("expected HelloAck"));
        }
        if p.len() < 7 {
            return Err(protocol_err("short ack"));
        }
        let version = from_le(p[1], p[2]);
        let features = read_u32(p, 3);
        let key_timeout_ms = if p.len() >= 9 { from_le(p[7], p[8]) } else { DEFAULT_KEY_TIMEOUT_MS };
        let rest = slice_subrange(p, 9, p.len());
        assert(rest@ =~= p@.skip(9));
        let server_hash = match read_name(rest) {
            Some(h) => h,
            None => return Err(protocol_err("missing hash")),
        };
        if version == 0 {
            return Err(protocol_err("incompatible protocol version"));
        }
        Ok(HelloAck { version, features, key_timeout_ms, server_hash })
    }
}

/// The hash a client answers the server with: a freshly hashed passphrase
/// under the salt of the server's hash when the passphrase changed; else
/// the stored hash, which must equal the server's when authentication is
/// required.
pub open spec fn client_hash_outcome(
    server_hash: Seq<char>,
    passphrase: Option<Seq<char>>,
    passphrase_changed: bool,
    require_auth: bool,
    stored_hash: Seq<char>,
) -> Result<Seq<char>, ProtocolError> {
    if require_auth && server_hash.len() == 0 {
        Err(ProtocolError::PermissionDenied("Server does not require authentication"))
    } else if passphrase_changed {
        match passphrase {
            None => Err(ProtocolError::InvalidInput("Passphrase required")),
            Some(p) => match phc_salt(server_hash) {
                None => Err(ProtocolError::InvalidData("invalid server hash")),
                Some(salt) => match argon2_phc(p, salt) {
                    None => Err(ProtocolError::InvalidData("failed to hash passphrase")),
                    Some(h) => Ok(h),
                },
            },
        }
    } else if require_auth && server_hash != stored_hash {
        Err(ProtocolError::PermissionDenied("Server passphrase has changed"))
    } else {
        Ok(stored_hash)
    }
}

/// Decide the hash that the client sends in its Auth message.
pub fn client_hash(
    ack: &HelloAck,
    passphrase: Option<&str>,
    passphrase_changed: bool,
    require_auth: bool,
    stored_hash: &str,
) -> (r: Result<String, ProtocolError>)
    ensures
        match (r, client_hash_outcome(
            ack.server_hash@,
            match passphrase {
                Some(p) => Some(p@),
                None => None,
            },
            passphrase_changed,
            require_auth,
            stored_hash@,
        )) {
            (Ok(h), Ok(h2)) => h@ == h2,
            (Err(e), Err(e2)) => e == e2,
            _ => false,
        },
{
    if require_auth && ack.server_hash.as_str().unicode_len() == 0 {
        return Err(ProtocolError::PermissionDenied("Server does not require authentication"));
    }
    if passphrase_changed {
        let pass = match passphrase {
            Some(p) => p,
            None => return Err(ProtocolError::InvalidInput("Passphrase required")),
        };
        let salt = match extract_salt(ack.server_hash.as_str()) {
            Some(s) => s,
            None => return Err(protocol_err("invalid server hash")),
        };
        match hash_passphrase_with_salt(pass, salt.as_str()) {
            Some(h) => Ok(h),
            None => Err(protocol_err("failed to hash passphrase")),
        }
    } else if require_auth && !str_eq(ack.server_hash.as_str(), stored_hash) {
        Err(ProtocolError::PermissionDenied("Server passphrase has changed"))
    } else {
        Ok(stored_hash.to_string())
    }
}

/// Read the server's answer to Auth: AuthAck admits, AuthFailed is an
/// incorrect passphrase, anything else a protocol error.
pub fn check_auth_response(p: &[u8]) -> (r: Result<(), ProtocolError>)
    ensures
        p@.len() == 0 ==> r == Err::<(), ProtocolError>(ProtocolError::InvalidData("empty auth response")),
        p@.len() > 0 && p@[0] == CTRL_AUTH_FAILED ==> r == Err::<(), ProtocolError>(
            ProtocolError::PermissionDenied("Incorrect passphrase"),
        ),
        p@.len() > 0 && p@[0] == CTRL_AUTH_ACK ==> r is Ok,
        p@.len() > 0 && p@[0] != CTRL_AUTH_FAILED && p@[0] != CTRL_AUTH_ACK ==> r == Err::<
            (),
            ProtocolError,
        >(ProtocolError::InvalidData("expected AuthAck")),
{
    if p.len() == 0 {
        return Err(protocol_err("empty auth response"));
    }
    if p[0] == CTRL_AUTH_FAILED {
        return Err(ProtocolError::PermissionDenied("Incorrect passphrase"));
    }
    if p[0] != CTRL_AUTH_ACK {
        return Err(protocol_err("expected AuthAck"));
    }
    Ok(())
}

/// The session a successful handshake yields on the client.
#[derive(Debug, Clone, PartialEq, Eq)]
pub struct Sender {
    pub negotiated_version: u16,
    pub negotiated_features: u32,
    pub key_timeout_ms: u16,
    pub server_hash: String,
    pub client_hash: String,
}

impl Sender {
    /// The datagram that sends one event.
    pub fn datagram(&self, event: &Event) -> (d: Vec<u8>)
        ensures
            d@ == event_bytes(event@),
    {
        let mut d: Vec<u8> = Vec::new();
        event.encode(&mut d);
        assert(d@ =~= event_bytes(event@));
        d
    }
}

/// A client whose passphrase hash equals the server's is admitted, one
/// with another hash is refused when authentication is required, and the
/// server's HelloAck carries its hash to the client unchanged.
pub proof fn lemma_handshake_admits_matching_hash(server: ServerHandshake, client: Seq<char>)
    requires
        encode_utf8(client).len() <= 255,
        encode_utf8(server.passphrase_hash@).len() <= 255,
    ensures
        auth_from(auth_payload(client)) == Some(client),
        ({
            let ack = hello_ack_payload(1, 0, server.key_timeout_ms, server.passphrase_hash@);
            ack_readable(ack) && hello_ack_from(ack) == Ok::<(u16, u32, u16, Seq<char>), ProtocolError>(
                (1u16, 0u32, server.key_timeout_ms, server.passphrase_hash@),
            )
        }),
{
    let a = auth_payload(client);
    lemma_name_roundtrip(client, Seq::empty());
    assert(a.drop_first() =~= name_field(client) + Seq::<u8>::empty());
    let h = server.passphrase_hash@;
    let ack = hello_ack_payload(1, 0, server.key_timeout_ms, h);
    lemma_name_roundtrip(h, Seq::empty());
    assert(ack.skip(9) =~= name_field(h) + Seq::<u8>::empty());
    assert(ack.subrange(3, 7) =~= le32_bytes(0u32));
    assert(le16(lo(1u16), hi(1u16)) == 1u16);
    assert(le16(lo(server.key_timeout_ms), hi(server.key_timeout_ms)) == server.key_timeout_ms);
}

// ---------------------------------------------------------------------------
// Held keys on the receiving side
// ---------------------------------------------------------------------------

/// Tracks the keys that a peer holds, by name, and releases the ones not
/// refreshed within the timeout.
pub struct KeyTracker {
    pressed: Vec<(String, u64)>,
    timeout: u64,
    epoch: std::time::Instant,
}

/// A name-keyed tracker: the held names in the order they were first
/// pressed, with their last refresh times, and the timeout.
pub struct NamedTrackerView {
    pub held: Seq<(Seq<char>, u64)>,
    pub timeout: u64,
}

pub open spec fn entries_view(v: Seq<(String, u64)>) -> Seq<(Seq<char>, u64)> {
    v.map_values(|e: (String, u64)| (e.0@, e.1))
}

impl View for KeyTracker {
    type V = NamedTrackerView;

    closed spec fn view(&self) -> NamedTrackerView {
        NamedTrackerView { held: entries_view(self.pressed@), timeout: self.timeout }
    }
}

/// The text reported for a mouse move, button or wheel event.
pub open spec fn pointer_text(e: EventView) -> Seq<char> {
    match e {
        EventView::MouseMove { dx, dy } => "mouse move ("@ + signed_decimal(dx as int) + ", "@
            + signed_decimal(dy as int) + ")"@,
        EventView::MouseButton { button, pressed } => "mouse "@ + (if pressed {
            "press"@
        } else {
            "release"@
        }) + " button "@ + decimal(button as nat),
        EventView::Wheel { dx, dy } => "wheel ("@ + signed_decimal(dx as int) + ", "@ + signed_decimal(
            dy as int,
        ) + ")"@,
        _ => Seq::empty(),
    }
}

/// The actions that an event is reported as, and the held names after it,
/// at time `now`.
pub open spec fn named_step(held: Map<Seq<char>, u64>, e: EventView, now: u64) -> (Seq<Seq<char>>, Map<Seq<char>, u64>) {
    match e {
        EventView::KeyDown(n) => (
            if held.contains_key(n) {
                seq![crate::session::release_lost_text(n), crate::session::press_text(n)]
            } else {
                seq![crate::session::press_text(n)]
            },
            held.insert(n, now),
        ),
        EventView::KeyRepeat(n) => (
            if held.contains_key(n) {
                seq![crate::session::repeat_text(n)]
            } else {
                seq![crate::session::press_unprompted_text(n)]
            },
            held.insert(n, now),
        ),
        EventView::KeyUp(n) => (
            if held.contains_key(n) {
                seq![crate::session::release_text(n)]
            } else {
                Seq::empty()
            },
            held.remove(n),
        ),
        EventView::Heartbeat => (Seq::empty(), held),
        _ => (seq![pointer_text(e)], held),
    }
}

/// The held entries that have not timed out at `now`, in order.
pub open spec fn kept_entries(s: Seq<(Seq<char>, u64)>, now: u64, timeout: u64) -> Seq<(Seq<char>, u64)> {
    s.filter(|e: (Seq<char>, u64)| !crate::session::timed_out(e.1, now, timeout))
}

/// The release reports for the held entries that timed out at `now`, in
/// order.
pub open spec fn timeout_texts(s: Seq<(Seq<char>, u64)>, now: u64, timeout: u64) -> Seq<Seq<char>>
    decreases s.len(),
{
    if s.len() == 0 {
        Seq::empty()
    } else {
        let rest = timeout_texts(s.drop_last(), now, timeout);
        if crate::session::timed_out(s.last().1, now, timeout) {
            rest.push(crate::session::release_timeout_text(s.last().0))
        } else {
            rest
        }
    }
}

fn pointer_report(e: &Event) -> (t: String)
    requires
        e is MouseMove || e is MouseButton || e is Wheel,
    ensures
        t@ == pointer_text(e@),
{
    let mut t = String::new();
    match e {
        Event::MouseMove { dx, dy } => {
            t.append("mouse move (");
            push_signed(&mut t, *dx as i32);
            t.append(", ");
            push_signed(&mut t, *dy as i32);
            t.append(")");
        },
        Event::MouseButton { button, pressed } => {
            t.append("mouse ");
            t.append(if *pressed { "press" } else { "release" });
            t.append(" button ");
            push_decimal(&mut t, *button as u64);
        },
        Event::Wheel { dx, dy } => {
            t.append("wheel (");
            push_signed(&mut t, *dx as i32);
            t.append(", ");
            push_signed(&mut t, *dy as i32);
            t.append(")");
        },
        _ => {},
    }
    proof {
        assert(t@ =~= pointer_text(e@));
    }
    t
}

impl KeyTracker {
    /// A tracker with nothing held that releases keys not refreshed within
    /// `key_timeout_ms` milliseconds.
    pub fn new(key_timeout_ms: u16) -> (t: Self)
        ensures
            t@.held.len() == 0,
            t@.timeout == key_timeout_ms as u64 * 1_000_000,
    {
        KeyTracker {
            pressed: Vec::new(),
            timeout: key_timeout_ms as u64 * 1_000_000,
            epoch: crate::session::instant_now(),
        }
    }

    /// The position of a held name.
    fn find(&self, name: &str) -> (r: Option<usize>)
        ensures
            match r {
                Some(i) => i < self@.held.len() && self@.held[i as int].0 == name@,
                None => forall|i: int| 0 <= i < self@.held.len() ==> self@.held[i].0 != name@,
            },
    {
        let mut i: usize = 0;
        while i < self.pressed.len()
            invariant
                i <= self.pressed@.len(),
                forall|j: int| 0 <= j < i ==> self.pressed@[j].0@ != name@,
            decreases self.pressed@.len() - i,
        {
            if str_eq(self.pressed[i].0.as_str(), name) {
                return Some(i);
            }
            i += 1;
        }
        None
    }

    /// Report an event received at time `now` and update the held names:
    /// a key down or repeat (re)marks its name held, a key up releases it,
    /// and pointer events are reported as they are.
    pub fn handle_at(&mut self, event: &Event, now: u64) -> (actions: Vec<String>)
        requires
            distinct_keys(old(self)@.held),
        ensures
            distinct_keys(final(self)@.held),
            final(self)@.timeout == old(self)@.timeout,
            (crate::session::texts(actions@), assoc_map(final(self)@.held)) == named_step(
                assoc_map(old(self)@.held),
                event@,
                now,
            ),
    {
        let ghost h0 = self@.held;
        proof {
            if let EventView::KeyDown(n) = event@ {
                lemma_assoc_contains(h0, n);
            }
            if let EventView::KeyRepeat(n) = event@ {
                lemma_assoc_contains(h0, n);
            }
            if let EventView::KeyUp(n) = event@ {
                lemma_assoc_contains(h0, n);
            }
        }
        let mut actions: Vec<String> = Vec::new();
        match event {
            Event::KeyDown(name) => {
                match self.find(name.as_str()) {
                    Some(i) => {
                        actions.push(crate::session::text_with("release ", name, " (lost up)"));
                        actions.push(crate::session::text_with("press ", name, ""));
                        self.set_time(i, now);
                    },
                    None => {
                        actions.push(crate::session::text_with("press ", name, ""));
                        self.push_new(name, now);
                    },
                }
            },
            Event::KeyRepeat(name) => {
                match self.find(name.as_str()) {
                    Some(i) => {
                        actions.push(crate::session::text_with("repeat ", name, ""));
                        self.set_time(i, now);
                    },
                    None => {
                        actions.push(crate::session::text_with("press ", name, " (repeat without prior down)"));
                        self.push_new(name, now);
                    },
                }
            },
            Event::KeyUp(name) => {
                match self.find(name.as_str()) {
                    Some(i) => {
                        actions.push(crate::session::text_with("release ", name, ""));
                        self.remove_at(i);
                    },
                    None => {},
                }
            },
            Event::Heartbeat => {},
            _ => {
                actions.push(pointer_report(event));
            },
        }
        proof {
            reveal_strlit("");
            assert(crate::session::texts(actions@) =~= named_step(assoc_map(h0), event@, now).0);
        }
        actions
    }

    fn set_time(&mut self, i: usize, now: u64)
        requires
            i < old(self)@.held.len(),
            distinct_keys(old(self)@.held),
        ensures
            final(self)@.held == old(self)@.held.update(i as int, (old(self)@.held[i as int].0, now)),
            final(self)@.timeout == old(self)@.timeout,
            assoc_map(final(self)@.held) == assoc_map(old(self)@.held).insert(old(self)@.held[i as int].0, now),
            distinct_keys(final(self)@.held),
    {
        let name = self.pressed[i].0.clone();
        self.pressed.set(i, (name, now));
        proof {
            assert(self@.held =~= old(self)@.held.update(i as int, (old(self)@.held[i as int].0, now)));
            lemma_assoc_update(old(self)@.held, i as int, now);
        }
    }

    fn push_new(&mut self, name: &String, now: u64)
        requires
            distinct_keys(old(self)@.held),
            forall|j: int| 0 <= j < old(self)@.held.len() ==> old(self)@.held[j].0 != name@,
        ensures
            final(self)@.held == old(self)@.held.push((name@, now)),
            final(self)@.timeout == old(self)@.timeout,
            assoc_map(final(self)@.held) == assoc_map(old(self)@.held).insert(name@, now),
            distinct_keys(final(self)@.held),
    {
        self.pressed.push((name.clone(), now));
        proof {
            assert(self@.held =~= old(self)@.held.push((name@, now)));
            assert(self@.held.drop_last() =~= old(self)@.held);
        }
    }

    fn remove_at(&mut self, i: usize)
        requires
            i < old(self)@.held.len(),
            distinct_keys(old(self)@.held),
        ensures
            final(self)@.held == old(self)@.held.remove(i as int),
            final(self)@.timeout == old(self)@.timeout,
            assoc_map(final(self)@.held) == assoc_map(old(self)@.held).remove(old(self)@.held[i as int].0),
            distinct_keys(final(self)@.held),
    {
        self.pressed.remove(i);
        proof {
            assert(self@.held =~= old(self)@.held.remove(i as int));
            lemma_assoc_remove(old(self)@.held, i as int);
        }
    }

    /// Report an event received now.
    pub fn handle(&mut self, event: &Event) -> (actions: Vec<String>)
        requires
            distinct_keys(old(self)@.held),
        ensures
            distinct_keys(final(self)@.held),
            exists|now: u64| (crate::session::texts(actions@), assoc_map(final(self)@.held)) == named_step(
                assoc_map(old(self)@.held),
                event@,
                now,
            ),
    {
        let now = crate::session::nanos_since(&self.epoch);
        self.handle_at(event, now)
    }

    /// Release, at time `now`, the held names not refreshed within the
    /// timeout; the others stay held in their order.
    pub fn sweep_at(&mut self, now: u64) -> (actions: Vec<String>)
        requires
            distinct_keys(old(self)@.held),
        ensures
            distinct_keys(final(self)@.held),
            final(self)@.timeout == old(self)@.timeout,
            final(self)@.held == kept_entries(old(self)@.held, now, old(self)@.timeout),
            crate::session::texts(actions@) == timeout_texts(old(self)@.held, now, old(self)@.timeout),
            actions@.len() + final(self)@.held.len() == old(self)@.held.len(),
    {
        let ghost h0 = self@.held;
        let t = self.timeout;
        let mut kept: Vec<(String, u64)> = Vec::new();
        let mut actions: Vec<String> = Vec::new();
        let mut i: usize = 0;
        while i < self.pressed.len()
            invariant
                i <= self.pressed@.len(),
                entries_view(self.pressed@) == h0,
                self.timeout == t,
                entries_view(kept@) == kept_entries(h0.take(i as int), now, t),
                crate::session::texts(actions@) == timeout_texts(h0.take(i as int), now, t),
            decreases self.pressed@.len() - i,
        {
            let last = self.pressed[i].1;
            proof {
                assert(h0.take(i + 1).drop_last() =~= h0.take(i as int));
                assert(h0.take(i + 1).last() == h0[i as int]);
                h0.take(i as int).lemma_filter_push(h0[i as int], |e: (Seq<char>, u64)| !crate::session::timed_out(e.1, now, t));
                assert(h0.take(i + 1) =~= h0.take(i as int).push(h0[i as int]));
            }
            if now > last && now - last > t {
                actions.push(crate::session::text_with("release ", &self.pressed[i].0, " (timeout)"));
                proof {
                    assert(crate::session::texts(actions@) =~= timeout_texts(h0.take(i + 1), now, t));
                }
            } else {
                let e = (self.pressed[i].0.clone(), last);
                kept.push(e);
                proof {
                    assert(entries_view(kept@) =~= kept_entries(h0.take(i + 1), now, t));
                }
            }
            i += 1;
        }
        proof {
            assert(h0.take(h0.len() as int) =~= h0);
            assert(distinct_keys(h0));
            lemma_filter_distinct(h0, now, t);
            lemma_sweep_partitions(h0, now, t);
            assert(crate::session::texts(actions@).len() == actions@.len());
        }
        self.pressed = kept;
        actions
    }

    /// Release the held names not refreshed within the timeout, now.
    pub fn sweep(&mut self) -> (actions: Vec<String>)
        requires
            distinct_keys(old(self)@.held),
        ensures
            distinct_keys(final(self)@.held),
            exists|now: u64| final(self)@.held == kept_entries(old(self)@.held, now, old(self)@.timeout)
                && crate::session::texts(actions@) == timeout_texts(old(self)@.held, now, old(self)@.timeout),
    {
        let now = crate::session::nanos_since(&self.epoch);
        self.sweep_at(now)
    }
}

/// A sweep releases or keeps each held name, never both: the releases and
/// the names kept together number the names held before.
pub proof fn lemma_sweep_partitions(s: Seq<(Seq<char>, u64)>, now: u64, timeout: u64)
    ensures
        kept_entries(s, now, timeout).len() + timeout_texts(s, now, timeout).len() == s.len(),
    decreases s.len(),
{
    if s.len() > 0 {
        let pred = |e: (Seq<char>, u64)| !crate::session::timed_out(e.1, now, timeout);
        lemma_sweep_partitions(s.drop_last(), now, timeout);
        s.drop_last().lemma_filter_push(s.last(), pred);
        assert(s.drop_last().push(s.last()) =~= s);
    }
}

proof fn lemma_filter_distinct(s: Seq<(Seq<char>, u64)>, now: u64, t: u64)
    requires
        distinct_keys(s),
    ensures
        distinct_keys(kept_entries(s, now, t)),
    decreases s.len(),
{
    let f = |e: (Seq<char>, u64)| !crate::session::timed_out(e.1, now, t);
    if s.len() > 0 {
        let d = s.drop_last();
        assert(distinct_keys(d));
        lemma_filter_distinct(d, now, t);
        d.lemma_filter_push(s.last(), f);
        assert(s =~= d.push(s.last()));
        let k = kept_entries(d, now, t);
        if f(s.last()) {
            assert forall|i: int| 0 <= i < k.len() implies k[i].0 != s.last().0 by {
                assert(k.contains(k[i]));
                d.lemma_filter_contains_rev(f, k[i]);
                let j = choose|j: int| 0 <= j < d.len() && d[j] == k[i];
                assert(s[j] == d[j]);
            }
        }
    }
}

} // verus!
