use std::collections::VecDeque;

use spud::net::client::{send_for_draw, should_send, HandshakeFailure};
use spud::net::Event;

#[test]
fn key_down_encodes_code_and_seq() {
    let b = Event::KeyDown(0x1234, 9).encode();
    assert_eq!(b, [0x01, 0x34, 0x12, 9, 0]);
    assert_eq!(Event::decode(&b), Some(Event::KeyDown(0x1234, 9)));
}

#[test]
fn mouse_button_encodes_pressed_bit() {
    let b = Event::MouseButton { button: 3, pressed: true }.encode();
    assert_eq!(b, [0x06, 0x83, 0, 0, 0]);
    assert_eq!(Event::decode(&b), Some(Event::MouseButton { button: 3, pressed: true }));
    let up = Event::MouseButton { button: 3, pressed: false }.encode();
    assert_eq!(up, [0x06, 0x03, 0, 0, 0]);
}

#[test]
fn signed_moves_round_trip() {
    for (dx, dy) in [(-1i16, 1i16), (i16::MIN, i16::MAX), (0, -300)] {
        let e = Event::MouseMove { dx, dy };
        assert_eq!(Event::decode(&e.encode()), Some(e));
    }
    let w = Event::Wheel { dx: -3, dy: 127, seq: 200 };
    assert_eq!(Event::decode(&w.encode()), Some(w));
}

#[test]
fn every_event_kind_round_trips() {
    let all = [
        Event::KeyDown(30, 1),
        Event::KeyUp(30, 2),
        Event::KeyRepeat(30, 3),
        Event::MouseMove { dx: 5, dy: -5 },
        Event::MouseAbs { x: 65535, y: 0 },
        Event::MouseButton { button: 1, pressed: false },
        Event::Wheel { dx: 0, dy: -1, seq: 0 },
        Event::MouseButtonRepeat(2),
        Event::Keepalive,
    ];
    for e in all {
        assert_eq!(Event::decode(&e.encode()), Some(e));
    }
}

#[test]
fn short_or_unknown_input_does_not_decode() {
    assert_eq!(Event::decode(&[0x01, 0, 0, 0]), None);
    assert_eq!(Event::decode(&[0x7F, 0, 0, 0, 0]), None);
    assert_eq!(Event::decode(&[]), None);
}

#[test]
fn batch_layout_and_history_order() {
    let events = [Event::KeyDown(30, 1), Event::Keepalive];
    let mut history: VecDeque<(Vec<Event>, u16)> = VecDeque::new();
    history.push_back((vec![Event::MouseButtonRepeat(1)], 5));
    history.push_back((vec![Event::KeyUp(30, 2)], 6));
    let buf = Event::encode_batch(&events, 7, &history);
    assert_eq!(buf.len(), 3 + 10 + 3 + 5 + 3 + 5);
    assert_eq!(&buf[0..3], &[2, 7, 0]);
    let batches = Event::decode_all_batches(&buf);
    assert_eq!(batches.len(), 3);
    assert_eq!(batches[0].seq_base, 7);
    assert_eq!(batches[0].events, vec![Event::KeyDown(30, 1), Event::Keepalive]);
    // The most recent history batch comes first.
    assert_eq!(batches[1].seq_base, 6);
    assert_eq!(batches[1].events, vec![Event::KeyUp(30, 2)]);
    assert_eq!(batches[2].seq_base, 5);
}

#[test]
fn truncated_batch_is_refused() {
    let buf = Event::encode_batch(&[Event::Keepalive], 1, &VecDeque::new());
    assert_eq!(Event::decode_batch(&buf[..buf.len() - 1]).map(|(_, n)| n), None);
    let (b, n) = Event::decode_batch(&buf).unwrap();
    assert_eq!(n, buf.len());
    assert_eq!(b.events, vec![Event::Keepalive]);
}

#[test]
fn simulated_loss_drops_draws_below_the_rate() {
    assert!(send_for_draw(0, 0));
    assert!(!send_for_draw(30, 29));
    assert!(send_for_draw(30, 30));
    assert!(should_send(0));
    assert!(!should_send(100));
    assert_eq!(
        HandshakeFailure::IncorrectPassword.message(),
        "Authentication failed: incorrect password"
    );
    assert!(HandshakeFailure::NoPassphrase.is_permission_denied());
    assert!(!HandshakeFailure::ServerEncrypts.is_permission_denied());
}
