//! Compact UDP wire format for input events and event batches.
//!
//! Every event occupies exactly five bytes: a tag byte followed by four data
//! bytes. A batch is `[count: u8][seq_base: u16 LE][events...]`; a datagram
//! payload is the current batch followed by redundant older batches.

use vstd::prelude::*;
use vstd::slice::slice_subrange;
use std::collections::VecDeque;

pub mod auth;
pub mod protocol;
pub mod client;
pub mod named;
pub mod server;

verus! {

/// Wire tag values for the compact event encoding.
pub const TAG_KEY_DOWN: u8 = 0x01;
pub const TAG_KEY_UP: u8 = 0x02;
pub const TAG_KEY_REPEAT: u8 = 0x03;
pub const TAG_MOUSE_MOVE: u8 = 0x04;
pub const TAG_MOUSE_ABS: u8 = 0x05;
pub const TAG_MOUSE_BUTTON: u8 = 0x06;
pub const TAG_MOUSE_BUTTON_REPEAT: u8 = 0x07;
pub const TAG_WHEEL: u8 = 0x08;
pub const TAG_KEEPALIVE: u8 = 0x09;

/// Fixed size of a single encoded event in bytes.
pub const ENCODED_SIZE: usize = 5;

/// Connection-level notifications surfaced to the user interface.
#[derive(Debug, Clone, Copy, PartialEq, Eq)]
pub enum NetEvent {
    Disconnected,
}

/// Input event transmitted over the wire.
///
/// Keyboard and wheel events carry a `u8` sequence number used by the
/// receiver for deduplication; sequence 0 bypasses deduplication.
#[allow(inconsistent_fields)]
#[derive(Debug, Clone, Copy, PartialEq, Eq, Structural)]
pub enum Event {
    KeyDown(u16, u8),
    KeyUp(u16, u8),
    MouseMove { dx: i16, dy: i16 },
    MouseAbs { x: u16, y: u16 },
    MouseButton { button: u8, pressed: bool },
    Wheel { dx: i8, dy: i8, seq: u8 },
    KeyRepeat(u16, u8),
    MouseButtonRepeat(u8),
    Keepalive,
}

/// A decoded batch including the sequence number base assigned by the sender.
#[derive(Debug)]
pub struct DecodedBatch {
    pub events: Vec<Event>,
    pub seq_base: u16,
}

impl View for DecodedBatch {
    type V = (Seq<Event>, u16);

    open spec fn view(&self) -> (Seq<Event>, u16) {
        (self.events@, self.seq_base)
    }
}

// ---------------------------------------------------------------------------
// Specification of the byte format
// ---------------------------------------------------------------------------

/// Low byte of a little-endian `u16`.
pub open spec fn lo(v: u16) -> u8 {
    (v % 256) as u8
}

/// High byte of a little-endian `u16`.
pub open spec fn hi(v: u16) -> u8 {
    (v / 256) as u8
}

/// The `u16` whose little-endian bytes are `a, b`.
pub open spec fn le16(a: u8, b: u8) -> u16 {
    (a + 256 * b) as u16
}

/// The five bytes that encode one event.
pub open spec fn event_bytes(e: Event) -> Seq<u8> {
    match e {
        Event::KeyDown(code, seq) => seq![TAG_KEY_DOWN, lo(code), hi(code), seq, 0u8],
        Event::KeyUp(code, seq) => seq![TAG_KEY_UP, lo(code), hi(code), seq, 0u8],
        Event::KeyRepeat(code, seq) => seq![TAG_KEY_REPEAT, lo(code), hi(code), seq, 0u8],
        Event::MouseMove { dx, dy } => seq![
            TAG_MOUSE_MOVE,
            lo(dx as u16),
            hi(dx as u16),
            lo(dy as u16),
            hi(dy as u16),
        ],
        Event::MouseAbs { x, y } => seq![TAG_MOUSE_ABS, lo(x), hi(x), lo(y), hi(y)],
        Event::MouseButton { button, pressed } => seq![
            TAG_MOUSE_BUTTON,
            button | (if pressed { 0x80u8 } else { 0u8 }),
            0u8,
            0u8,
            0u8,
        ],
        Event::Wheel { dx, dy, seq } => seq![TAG_WHEEL, dx as u8, dy as u8, seq, 0u8],
        Event::MouseButtonRepeat(button) => seq![TAG_MOUSE_BUTTON_REPEAT, button, 0u8, 0u8, 0u8],
        Event::Keepalive => seq![TAG_KEEPALIVE, 0u8, 0u8, 0u8, 0u8],
    }
}

/// The event that the first five bytes of `b` encode, if `b` is long enough
/// and its first byte is a known tag.
pub open spec fn event_from_bytes(b: Seq<u8>) -> Option<Event> {
    if b.len() < 5 {
        None
    } else {
        let t = b[0];
        if t == TAG_KEY_DOWN {
            Some(Event::KeyDown(le16(b[1], b[2]), b[3]))
        } else if t == TAG_KEY_UP {
            Some(Event::KeyUp(le16(b[1], b[2]), b[3]))
        } else if t == TAG_KEY_REPEAT {
            Some(Event::KeyRepeat(le16(b[1], b[2]), b[3]))
        } else if t == TAG_MOUSE_MOVE {
            Some(Event::MouseMove { dx: le16(b[1], b[2]) as i16, dy: le16(b[3], b[4]) as i16 })
        } else if t == TAG_MOUSE_ABS {
            Some(Event::MouseAbs { x: le16(b[1], b[2]), y: le16(b[3], b[4]) })
        } else if t == TAG_MOUSE_BUTTON {
            Some(Event::MouseButton { button: b[1] & 0x7Fu8, pressed: (b[1] & 0x80u8) != 0 })
        } else if t == TAG_WHEEL {
            Some(Event::Wheel { dx: b[1] as i8, dy: b[2] as i8, seq: b[3] })
        } else if t == TAG_MOUSE_BUTTON_REPEAT {
            Some(Event::MouseButtonRepeat(b[1]))
        } else if t == TAG_KEEPALIVE {
            Some(Event::Keepalive)
        } else {
            None
        }
    }
}

/// An event that the wire format can carry without loss: a mouse button
/// number occupies bits 0-6 only.
pub open spec fn wire_representable(e: Event) -> bool {
    match e {
        Event::MouseButton { button, .. } => button < 128,
        _ => true,
    }
}

/// Concatenated encodings of a sequence of events.
pub open spec fn events_bytes(es: Seq<Event>) -> Seq<u8>
    decreases es.len(),
{
    if es.len() == 0 {
        Seq::empty()
    } else {
        events_bytes(es.drop_last()) + event_bytes(es.last())
    }
}

/// Number of events written for a batch of `n` events (at most 255).
pub open spec fn batch_count(n: nat) -> nat {
    if n <= 255 { n } else { 255 }
}

/// Encoding of one batch: count, sequence base, then the first `count` events.
pub open spec fn batch_bytes(es: Seq<Event>, seq_base: u16) -> Seq<u8> {
    let c = batch_count(es.len());
    seq![c as u8, lo(seq_base), hi(seq_base)] + events_bytes(es.take(c as int))
}

/// Encoding of the redundant history, most recent (last) batch first.
pub open spec fn history_bytes(h: Seq<(Seq<Event>, u16)>) -> Seq<u8>
    decreases h.len(),
{
    if h.len() == 0 {
        Seq::empty()
    } else {
        batch_bytes(h.last().0, h.last().1) + history_bytes(h.drop_last())
    }
}

/// View of a history queue as sequences of events with their sequence bases.
pub open spec fn history_view(h: Seq<(Vec<Event>, u16)>) -> Seq<(Seq<Event>, u16)> {
    h.map_values(|p: (Vec<Event>, u16)| (p.0@, p.1))
}

/// The whole datagram payload written by `Event::encode_batch`.
pub open spec fn datagram_bytes(
    es: Seq<Event>,
    seq_base: u16,
    h: Seq<(Seq<Event>, u16)>,
) -> Seq<u8> {
    batch_bytes(es, seq_base) + history_bytes(h)
}

/// Decoding of the first `n` five-byte events that follow the three header
/// bytes of `b`; `None` if any of them has an unknown tag.
pub open spec fn events_from_bytes(b: Seq<u8>, n: nat) -> Option<Seq<Event>>
    decreases n,
{
    if n == 0 {
        Some(Seq::empty())
    } else {
        match events_from_bytes(b, (n - 1) as nat) {
            None => None,
            Some(es) => match event_from_bytes(b.subrange(3 + 5 * (n - 1), (3 + 5 * n) as int)) {
                None => None,
                Some(e) => Some(es.push(e)),
            },
        }
    }
}

/// Decoding of one batch from the start of `b`, with the bytes it occupies.
pub open spec fn batch_from_bytes(b: Seq<u8>) -> Option<((Seq<Event>, u16), nat)> {
    if b.len() < 3 {
        None
    } else {
        let count = b[0] as nat;
        let expected = 3 + 5 * count;
        if b.len() < expected {
            None
        } else {
            match events_from_bytes(b, count) {
                None => None,
                Some(es) => Some(((es, le16(b[1], b[2])), expected)),
            }
        }
    }
}

/// Decoding of every batch in a datagram payload, stopping at the first
/// batch that does not decode.
pub open spec fn batches_from_bytes(b: Seq<u8>) -> Seq<(Seq<Event>, u16)>
    decreases b.len(),
{
    if b.len() == 0 {
        Seq::empty()
    } else {
        match batch_from_bytes(b) {
            None => Seq::empty(),
            Some((batch, n)) => if 0 < n <= b.len() {
                seq![batch] + batches_from_bytes(b.skip(n as int))
            } else {
                Seq::empty()
            },
        }
    }
}

/// The batches that a receiver recovers from an encoded datagram: the current
/// batch, then the history from most recent to oldest, each cut to 255 events.
pub open spec fn expected_batches(
    es: Seq<Event>,
    seq_base: u16,
    h: Seq<(Seq<Event>, u16)>,
) -> Seq<(Seq<Event>, u16)> {
    seq![(es.take(batch_count(es.len()) as int), seq_base)] + history_batches(h)
}

/// The history batches from the most recent to the oldest, each cut to 255 events.
pub open spec fn history_batches(h: Seq<(Seq<Event>, u16)>) -> Seq<(Seq<Event>, u16)>
    decreases h.len(),
{
    if h.len() == 0 {
        Seq::empty()
    } else {
        seq![(h.last().0.take(batch_count(h.last().0.len()) as int), h.last().1)]
            + history_batches(h.drop_last())
    }
}

// ---------------------------------------------------------------------------
// Executable encoding and decoding
// ---------------------------------------------------------------------------

pub(crate) fn le_bytes(v: u16) -> (r: (u8, u8))
    ensures
        r.0 == lo(v),
        r.1 == hi(v),
{
    ((v % 256) as u8, (v / 256) as u8)
}

pub(crate) fn from_le(a: u8, b: u8) -> (r: u16)
    ensures
        r == le16(a, b),
{
    (a as u16) + 256 * (b as u16)
}

impl Event {
    /// Encode a single event into a fixed 5-byte buffer.
    pub fn encode(&self) -> (buf: [u8; 5])
        ensures
            buf@ == event_bytes(*self),
    {
        let buf: [u8; 5] = match *self {
            Event::KeyDown(code, seq) => {
                let (a, b) = le_bytes(code);
                [TAG_KEY_DOWN, a, b, seq, 0]
            },
            Event::KeyUp(code, seq) => {
                let (a, b) = le_bytes(code);
                [TAG_KEY_UP, a, b, seq, 0]
            },
            Event::KeyRepeat(code, seq) => {
                let (a, b) = le_bytes(code);
                [TAG_KEY_REPEAT, a, b, seq, 0]
            },
            Event::MouseMove { dx, dy } => {
                let (a, b) = le_bytes(dx as u16);
                let (c, d) = le_bytes(dy as u16);
                [TAG_MOUSE_MOVE, a, b, c, d]
            },
            Event::MouseAbs { x, y } => {
                let (a, b) = le_bytes(x);
                let (c, d) = le_bytes(y);
                [TAG_MOUSE_ABS, a, b, c, d]
            },
            Event::MouseButton { button, pressed } => {
                [TAG_MOUSE_BUTTON, button | (if pressed { 0x80u8 } else { 0u8 }), 0, 0, 0]
            },
            Event::Wheel { dx, dy, seq } => [TAG_WHEEL, dx as u8, dy as u8, seq, 0],
            Event::MouseButtonRepeat(button) => [TAG_MOUSE_BUTTON_REPEAT, button, 0, 0, 0],
            Event::Keepalive => [TAG_KEEPALIVE, 0, 0, 0, 0],
        };
        assert(buf@ =~= event_bytes(*self));
        buf
    }

    /// Decode a single event from the start of a byte slice.
    /// Returns `None` if the slice is too short or the tag is unknown.
    pub fn decode(buf: &[u8]) -> (r: Option<Event>)
        ensures
            r == event_from_bytes(buf@),
    {
        if buf.len() < ENCODED_SIZE {
            return None;
        }
        let tag = buf[0];
        if tag == TAG_KEY_DOWN {
            Some(Event::KeyDown(from_le(buf[1], buf[2]), buf[3]))
        } else if tag == TAG_KEY_UP {
            Some(Event::KeyUp(from_le(buf[1], buf[2]), buf[3]))
        } else if tag == TAG_KEY_REPEAT {
            Some(Event::KeyRepeat(from_le(buf[1], buf[2]), buf[3]))
        } else if tag == TAG_MOUSE_MOVE {
            Some(Event::MouseMove {
                dx: from_le(buf[1], buf[2]) as i16,
                dy: from_le(buf[3], buf[4]) as i16,
            })
        } else if tag == TAG_MOUSE_ABS {
            Some(Event::MouseAbs { x: from_le(buf[1], buf[2]), y: from_le(buf[3], buf[4]) })
        } else if tag == TAG_MOUSE_BUTTON {
            Some(Event::MouseButton { button: buf[1] & 0x7F, pressed: (buf[1] & 0x80) != 0 })
        } else if tag == TAG_WHEEL {
            Some(Event::Wheel { dx: buf[1] as i8, dy: buf[2] as i8, seq: buf[3] })
        } else if tag == TAG_MOUSE_BUTTON_REPEAT {
            Some(Event::MouseButtonRepeat(buf[1]))
        } else if tag == TAG_KEEPALIVE {
            Some(Event::Keepalive)
        } else {
            None
        }
    }
}


/// View of a list of decoded batches.
pub open spec fn batches_view(v: Seq<DecodedBatch>) -> Seq<(Seq<Event>, u16)> {
    v.map_values(|d: DecodedBatch| d@)
}

/// Appends the encoding of one batch to `buf`.
fn push_batch(buf: &mut Vec<u8>, events: &[Event], seq_base: u16)
    ensures
        final(buf)@ == old(buf)@ + batch_bytes(events@, seq_base),
{
    let count: u8 = if events.len() <= 255 { events.len() as u8 } else { 255 };
    let (a, b) = le_bytes(seq_base);
    buf.push(count);
    buf.push(a);
    buf.push(b);
    let ghost start = buf@;
    assert(start =~= old(buf)@ + seq![count, lo(seq_base), hi(seq_base)]);
    let mut j: usize = 0;
    while j < count as usize
        invariant
            j <= count,
            count as nat == batch_count(events@.len()),
            count as nat <= events@.len(),
            buf@ == start + events_bytes(events@.take(j as int)),
        decreases count - j,
    {
        let enc = events[j].encode();
        buf.push(enc[0]);
        buf.push(enc[1]);
        buf.push(enc[2]);
        buf.push(enc[3]);
        buf.push(enc[4]);
        proof {
            assert(events@.take(j + 1).drop_last() =~= events@.take(j as int));
            assert(events@.take(j + 1).last() == events@[j as int]);
            assert(enc@ =~= seq![enc[0], enc[1], enc[2], enc[3], enc[4]]);
            assert(buf@ =~= start + events_bytes(events@.take(j + 1)));
        }
        j += 1;
    }
    assert(buf@ =~= old(buf)@ + batch_bytes(events@, seq_base));
}

impl Event {
    /// Encode a batch of events, followed by the redundant history batches
    /// from the most recent (back of the queue) to the oldest.
    ///
    /// Format: `[count: u8][seq_base: u16 LE][event0: 5][event1: 5]...` per
    /// batch; at most 255 events of each batch are written.
    pub fn encode_batch(
        events: &[Event],
        seq_base: u16,
        history: &VecDeque<(Vec<Event>, u16)>,
    ) -> (buf: Vec<u8>)
        ensures
            buf@ == datagram_bytes(events@, seq_base, history_view(history@)),
    {
        let mut buf: Vec<u8> = Vec::new();
        push_batch(&mut buf, events, seq_base);
        let ghost main = buf@;
        let ghost hv = history_view(history@);
        assert(hv.take(hv.len() as int) =~= hv);
        let mut i: usize = history.len();
        while i > 0
            invariant
                i <= history@.len(),
                hv == history_view(history@),
                main + history_bytes(hv) == buf@ + history_bytes(hv.take(i as int)),
            decreases i,
        {
            i -= 1;
            let entry = &history[i];
            let ghost before = buf@;
            push_batch(&mut buf, entry.0.as_slice(), entry.1);
            proof {
                let t = hv.take(i + 1);
                assert(t.drop_last() =~= hv.take(i as int));
                assert(t.last() == (history@[i as int].0@, history@[i as int].1));
                assert(history_bytes(t) == batch_bytes(t.last().0, t.last().1)
                    + history_bytes(t.drop_last()));
                assert(before + history_bytes(t) =~= buf@ + history_bytes(hv.take(i as int)));
            }
        }
        assert(hv.take(0) =~= Seq::<(Seq<Event>, u16)>::empty());
        assert(buf@ =~= datagram_bytes(events@, seq_base, hv));
        buf
    }

    /// Decode a single batch from a byte slice.
    /// Returns the decoded batch and the number of bytes consumed.
    pub fn decode_batch(buf: &[u8]) -> (r: Option<(DecodedBatch, usize)>)
        ensures
            match r {
                None => batch_from_bytes(buf@) is None,
                Some((d, n)) => batch_from_bytes(buf@) == Some((d@, n as nat)),
            },
    {
        if buf.len() < 3 {
            return None;
        }
        let count = buf[0] as usize;
        let expected = 3 + count * ENCODED_SIZE;
        if buf.len() < expected {
            return None;
        }
        let seq_base = from_le(buf[1], buf[2]);
        let mut events: Vec<Event> = Vec::new();
        let mut i: usize = 0;
        while i < count
            invariant
                i <= count,
                count == buf@[0] as nat,
                expected == 3 + 5 * count,
                expected <= buf@.len(),
                events_from_bytes(buf@, i as nat) == Some(events@),
            decreases count - i,
        {
            let offset = 3 + i * ENCODED_SIZE;
            let part = slice_subrange(buf, offset, offset + ENCODED_SIZE);
            match Event::decode(part) {
                Some(e) => {
                    events.push(e);
                },
                None => {
                    proof {
                        lemma_events_from_bytes_none(buf@, (i + 1) as nat, count as nat);
                    }
                    return None;
                },
            }
            i += 1;
        }
        Some((DecodedBatch { events, seq_base }, expected))
    }

    /// Decode all batches from a datagram payload.
    /// The first element is the primary (current) batch and the rest are the
    /// redundant batches in wire order (most recent first).
    pub fn decode_all_batches(buf: &[u8]) -> (batches: Vec<DecodedBatch>)
        ensures
            batches_view(batches@) == batches_from_bytes(buf@),
    {
        let mut batches: Vec<DecodedBatch> = Vec::new();
        let mut offset: usize = 0;
        assert(buf@.skip(0) =~= buf@);
        while offset < buf.len()
            invariant
                offset <= buf@.len(),
                batches_from_bytes(buf@) == batches_view(batches@) + batches_from_bytes(
                    buf@.skip(offset as int),
                ),
            decreases buf@.len() - offset,
        {
            let rest = slice_subrange(buf, offset, buf.len());
            assert(rest@ =~= buf@.skip(offset as int));
            match Event::decode_batch(rest) {
                Some((batch, consumed)) => {
                    let ghost old_batches = batches@;
                    batches.push(batch);
                    proof {
                        assert(rest@.skip(consumed as int) =~= buf@.skip(offset + consumed));
                        assert(batches_view(batches@) =~= batches_view(old_batches).push(
                            batch@,
                        ));
                        assert(batches_view(batches@) + batches_from_bytes(
                            buf@.skip(offset + consumed),
                        ) =~= batches_view(old_batches) + (seq![batch@] + batches_from_bytes(
                            rest@.skip(consumed as int),
                        )));
                    }
                    offset += consumed;
                },
                None => {
                    proof {
                        assert(batches_from_bytes(rest@) =~= Seq::<(Seq<Event>, u16)>::empty());
                        assert(batches_view(batches@) + batches_from_bytes(rest@) =~= batches_view(
                            batches@,
                        ));
                    }
                    return batches;
                },
            }
        }
        assert(buf@.skip(offset as int) =~= Seq::<u8>::empty());
        assert(batches_view(batches@) + batches_from_bytes(buf@.skip(offset as int))
            =~= batches_view(batches@));
        batches
    }
}

proof fn lemma_events_from_bytes_none(b: Seq<u8>, k: nat, n: nat)
    requires
        k <= n,
        events_from_bytes(b, k) is None,
    ensures
        events_from_bytes(b, n) is None,
    decreases n - k,
{
    if k < n {
        lemma_events_from_bytes_none(b, k, (n - 1) as nat);
    }
}


// ---------------------------------------------------------------------------
// Round-trip laws
// ---------------------------------------------------------------------------

/// Every event in the sequence can be carried by the wire format.
pub open spec fn all_representable(es: Seq<Event>) -> bool {
    forall|i: int| 0 <= i < es.len() ==> wire_representable(#[trigger] es[i])
}

/// Every batch of the history holds only representable events.
pub open spec fn history_representable(h: Seq<(Seq<Event>, u16)>) -> bool {
    forall|i: int| 0 <= i < h.len() ==> all_representable(#[trigger] h[i].0)
}

proof fn lemma_le16_roundtrip(v: u16)
    ensures
        le16(lo(v), hi(v)) == v,
{
}

/// Decoding the five bytes of an encoded event gives back the event, for
/// every event whose mouse button number fits in seven bits.
pub proof fn lemma_event_roundtrip(e: Event)
    requires
        wire_representable(e),
    ensures
        event_from_bytes(event_bytes(e)) == Some(e),
        event_bytes(e).len() == ENCODED_SIZE,
{
    match e {
        Event::KeyDown(code, _) => lemma_le16_roundtrip(code),
        Event::KeyUp(code, _) => lemma_le16_roundtrip(code),
        Event::KeyRepeat(code, _) => lemma_le16_roundtrip(code),
        Event::MouseMove { dx, dy } => {
            lemma_le16_roundtrip(dx as u16);
            lemma_le16_roundtrip(dy as u16);
            assert(((dx as u16) as i16) == dx) by (bit_vector);
            assert(((dy as u16) as i16) == dy) by (bit_vector);
        },
        Event::MouseAbs { x, y } => {
            lemma_le16_roundtrip(x);
            lemma_le16_roundtrip(y);
        },
        Event::MouseButton { button, pressed } => {
            assert(button < 128 ==> ((button | 0x80u8) & 0x7Fu8) == button && ((button | 0x80u8)
                & 0x80u8) != 0 && ((button | 0u8) & 0x7Fu8) == button && ((button | 0u8) & 0x80u8)
                == 0) by (bit_vector);
        },
        Event::Wheel { dx, dy, seq } => {
            assert(((dx as u8) as i8) == dx) by (bit_vector);
            assert(((dy as u8) as i8) == dy) by (bit_vector);
        },
        _ => {},
    }
}

proof fn lemma_events_bytes_len(es: Seq<Event>)
    ensures
        events_bytes(es).len() == 5 * es.len(),
    decreases es.len(),
{
    if es.len() > 0 {
        lemma_events_bytes_len(es.drop_last());
    }
}

proof fn lemma_events_decode(hdr: Seq<u8>, es: Seq<Event>, rest: Seq<u8>)
    requires
        hdr.len() == 3,
        all_representable(es),
    ensures
        events_from_bytes(hdr + events_bytes(es) + rest, es.len()) == Some(es),
    decreases es.len(),
{
    let b = hdr + events_bytes(es) + rest;
    if es.len() > 0 {
        let n = es.len();
        let init = es.drop_last();
        let last = es.last();
        assert(es[n - 1] == last);
        let rest2 = event_bytes(last) + rest;
        assert(b =~= hdr + events_bytes(init) + rest2);
        lemma_events_decode(hdr, init, rest2);
        lemma_events_bytes_len(init);
        lemma_event_roundtrip(last);
        assert(b.subrange(3 + 5 * (n - 1), (3 + 5 * n) as int) =~= event_bytes(last));
        assert(init.push(last) =~= es);
    }
}

proof fn lemma_batch_decode(es: Seq<Event>, seq_base: u16, rest: Seq<u8>)
    requires
        all_representable(es),
    ensures
        ({
            let c = batch_count(es.len());
            batch_from_bytes(batch_bytes(es, seq_base) + rest) == Some(
                ((es.take(c as int), seq_base), 3 + 5 * c),
            )
        }),
{
    let c = batch_count(es.len());
    let t = es.take(c as int);
    let hdr = seq![c as u8, lo(seq_base), hi(seq_base)];
    assert(all_representable(t));
    lemma_events_decode(hdr, t, rest);
    lemma_events_bytes_len(t);
    assert(batch_bytes(es, seq_base) + rest =~= hdr + events_bytes(t) + rest);
    lemma_le16_roundtrip(seq_base);
}

proof fn lemma_history_decode(h: Seq<(Seq<Event>, u16)>)
    requires
        history_representable(h),
    ensures
        batches_from_bytes(history_bytes(h)) == history_batches(h),
    decreases h.len(),
{
    if h.len() > 0 {
        let last = h.last();
        let init = h.drop_last();
        assert(h[h.len() - 1] == last);
        assert(history_representable(init)) by {
            assert forall|i: int| 0 <= i < init.len() implies all_representable(
                #[trigger] init[i].0,
            ) by {
                assert(init[i] == h[i]);
            }
        }
        lemma_history_decode(init);
        lemma_batch_and_rest(last.0, last.1, history_bytes(init));
    } else {
        assert(history_bytes(h) =~= Seq::<u8>::empty());
    }
}

proof fn lemma_batch_and_rest(es: Seq<Event>, seq_base: u16, rest: Seq<u8>)
    requires
        all_representable(es),
    ensures
        batches_from_bytes(batch_bytes(es, seq_base) + rest) == seq![
            (es.take(batch_count(es.len()) as int), seq_base),
        ] + batches_from_bytes(rest),
{
    let b = batch_bytes(es, seq_base) + rest;
    let c = batch_count(es.len());
    lemma_batch_decode(es, seq_base, rest);
    lemma_events_bytes_len(es.take(c as int));
    assert(b.skip((3 + 5 * c) as int) =~= rest);
}

/// What a receiver decodes from a datagram payload built by
/// `Event::encode_batch` is exactly the current batch followed by the
/// history from the most recent batch to the oldest (each cut to 255 events),
/// for every input whose mouse button numbers fit in seven bits.
pub proof fn lemma_datagram_roundtrip(
    events: Seq<Event>,
    seq_base: u16,
    history: Seq<(Seq<Event>, u16)>,
)
    requires
        all_representable(events),
        history_representable(history),
    ensures
        batches_from_bytes(datagram_bytes(events, seq_base, history)) == expected_batches(
            events,
            seq_base,
            history,
        ),
{
    lemma_batch_and_rest(events, seq_base, history_bytes(history));
    lemma_history_decode(history);
}

/// Decoding a single batch written by `Event::encode_batch` gives back its
/// events (up to 255 of them) and its sequence base, and consumes exactly
/// `3 + 5 * count` bytes.
pub proof fn lemma_batch_roundtrip(events: Seq<Event>, seq_base: u16, rest: Seq<u8>)
    requires
        all_representable(events),
    ensures
        batch_from_bytes(batch_bytes(events, seq_base) + rest) == Some(
            (
                (events.take(batch_count(events.len()) as int), seq_base),
                3 + 5 * batch_count(events.len()),
            ),
        ),
{
    lemma_batch_decode(events, seq_base, rest);
}

} // verus!
