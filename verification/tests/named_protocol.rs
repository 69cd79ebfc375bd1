use spud::net::named::{
    encode_frame, frame_len, hello, parse_hello, protocol_err, push_name, read_name, read_name_split, ControlReply,
    Event, HelloAck, KeyTracker, ProtocolError, ServerHandshake, CTRL_HELLO_ACK,
};

fn encoded(e: &Event) -> Vec<u8> {
    let mut buf = Vec::new();
    e.encode(&mut buf);
    buf
}

#[test]
fn named_events_round_trip() {
    for e in [
        Event::KeyDown("KeyA".to_string()),
        Event::KeyUp("evdev:183".to_string()),
        Event::KeyRepeat(String::new()),
        Event::MouseMove { dx: -7, dy: 300 },
        Event::MouseButton { button: 2, pressed: true },
        Event::Wheel { dx: 1, dy: -1 },
        Event::Heartbeat,
    ] {
        assert_eq!(Event::decode(&encoded(&e)), Some(e.clone()));
    }
}

#[test]
fn key_names_are_length_prefixed() {
    let mut buf = Vec::new();
    push_name(&mut buf, "Tab");
    assert_eq!(buf, vec![3, b'T', b'a', b'b']);
    assert_eq!(read_name(&buf).as_deref(), Some("Tab"));
    buf.push(9);
    let (name, rest) = read_name_split(&buf).unwrap();
    assert_eq!(name, "Tab");
    assert_eq!(rest, &[9]);
    assert_eq!(read_name(&[5, b'a']), None);
    assert_eq!(read_name(&[2, 0xff, 0xfe]), None);
}

#[test]
fn frames_carry_their_length() {
    let f = encode_frame(&[1, 2, 3]).unwrap();
    assert_eq!(f, vec![3, 0, 1, 2, 3]);
    assert_eq!(frame_len([3, 0]), 3);
    assert_eq!(frame_len([0, 1]), 256);
    let big = vec![0u8; 65536];
    assert_eq!(encode_frame(&big), Err(ProtocolError::InvalidInput("frame too large")));
    assert_eq!(protocol_err("bad"), ProtocolError::InvalidData("bad"));
}

#[test]
fn hello_is_answered_with_the_server_settings() {
    let h = hello();
    assert_eq!(parse_hello(&h), Some((1, 0)));
    let server = ServerHandshake { key_timeout_ms: 750, require_auth: false, passphrase_hash: String::new() };
    match server.on_hello(&h) {
        ControlReply::Send(ack) | ControlReply::Admit(ack) => {
            assert_eq!(ack[0], CTRL_HELLO_ACK);
            let parsed = HelloAck::parse(&ack).unwrap();
            assert_eq!(parsed.version, 1);
            assert_eq!(parsed.key_timeout_ms, 750);
        }
        other => panic!("unexpected reply {:?}", other),
    }
    assert_eq!(server.on_hello(&[0x7f]), ControlReply::Close);
}

#[test]
fn sweep_releases_stale_names_once() {
    let mut t = KeyTracker::new(100);
    assert!(t.sweep_at(5).is_empty());
    t.handle_at(&Event::KeyDown("a".to_string()), 0);
    t.handle_at(&Event::KeyDown("b".to_string()), 150_000_000);
    let released = t.sweep_at(200_000_000);
    assert_eq!(released, vec!["release a (timeout)".to_string()]);
    assert!(t.sweep_at(200_000_001).is_empty());
    assert_eq!(t.sweep_at(400_000_000), vec!["release b (timeout)".to_string()]);
}

