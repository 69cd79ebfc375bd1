use std::collections::VecDeque;

use spud::crypto::{decrypt_event, derive_udp_keys, encrypt_event, u64_to_le, ReplayWindow};
use spud::net::server::{
    auth_required, datagram_conn_id, scale_abs, session_expired, wire_to_platform_button, InjectPlatform, Injection,
    DatagramNote, ServerHandshake, ServerStep, SessionTable,
};
use spud::config::hash_passphrase;
use spud::net::auth::client_compute_response;
use spud::net::client::next_datagram;
use spud::net::Event;
use spud::net::protocol::ControlMsg;
use spud::session::{RecentHistory, SessionKeys, SessionState};

fn datagram(conn: u64, events: &[Event], base: u16) -> Vec<u8> {
    let mut d = u64_to_le(conn).to_vec();
    d.extend(Event::encode_batch(events, base, &VecDeque::new()));
    d
}

#[test]
fn conn_id_is_little_endian() {
    assert_eq!(datagram_conn_id(&[1, 0, 0, 0, 0, 0, 0, 0, 9]), Some(1));
    assert_eq!(datagram_conn_id(&[1, 2, 3]), None);
}

#[test]
fn repeated_key_sequence_is_injected_once() {
    let mut s = SessionState::new(false, None, "10.0.0.5:4000".to_string(), 1000, 1920, 1080);
    let d = datagram(7, &[Event::KeyDown(30, 5)], 1);
    let first = s.on_datagram(&d, "10.0.0.5:4000".to_string(), 10, true, InjectPlatform::Linux);
    assert_eq!(first.injections, vec![Injection::KeyDown(30)]);
    assert!(!first.remove_session);
    let again = s.on_datagram(&d, "10.0.0.5:4000".to_string(), 20, true, InjectPlatform::Linux);
    assert!(again.injections.is_empty());
    // Sequence 0 is never deduplicated.
    let z = datagram(7, &[Event::KeyUp(30, 0)], 2);
    let up = s.on_datagram(&z, "10.0.0.5:4000".to_string(), 30, true, InjectPlatform::Linux);
    assert_eq!(up.injections, vec![Injection::KeyUp(30)]);
    let up2 = s.on_datagram(&z, "10.0.0.5:4000".to_string(), 40, true, InjectPlatform::Linux);
    assert_eq!(up2.injections, vec![Injection::KeyUp(30)]);
}

#[test]
fn buttons_map_per_platform() {
    assert_eq!(wire_to_platform_button(1, InjectPlatform::Linux), 0x110);
    assert_eq!(wire_to_platform_button(3, InjectPlatform::Linux), 0x111);
    assert_eq!(wire_to_platform_button(3, InjectPlatform::MacOs), 3);
}

#[test]
fn absolute_positions_scale_to_the_screen() {
    assert_eq!(scale_abs(0, 1920), 0);
    assert_eq!(scale_abs(65535, 1920), 1919);
    assert_eq!(scale_abs(32768, 1000), 500);
}

#[test]
fn sessions_expire_after_five_minutes() {
    assert!(!session_expired(0, 300_000_000_000));
    assert!(session_expired(0, 300_000_000_001));
    assert!(!session_expired(10, 5));
    assert!(auth_required(true, "$argon2id$x"));
    assert!(!auth_required(true, ""));
    assert!(!auth_required(false, "$argon2id$x"));
}

#[test]
fn encrypted_datagrams_round_trip() {
    let keys = derive_udp_keys(&[5u8; 64]);
    assert_ne!(keys.client_write, keys.server_write);
    let payload = Event::encode_batch(&[Event::MouseMove { dx: 3, dy: -4 }], 1, &VecDeque::new());
    let packet = encrypt_event(&keys.client_write, 1, &payload).unwrap();
    assert_eq!(packet.len(), 12 + payload.len() + 16);
    assert_eq!(decrypt_event(&keys.client_write, 1, &packet), Some(payload.clone()));
    assert_eq!(decrypt_event(&keys.client_write, 2, &packet), None);
    assert_eq!(decrypt_event(&keys.server_write, 1, &packet), None);

    let session_keys = SessionKeys { server_read: keys.client_write, server_write: keys.server_write };
    let mut s = SessionState::new(true, Some(session_keys), "10.0.0.5:4000".to_string(), 1000, 1920, 1080);
    let mut d = u64_to_le(9).to_vec();
    d.extend(u64_to_le(1));
    d.extend(&packet);
    let out = s.on_datagram(&d, "10.0.0.5:4000".to_string(), 1, true, InjectPlatform::Linux);
    assert_eq!(out.note, None);
    assert_eq!(out.injections, vec![Injection::MoveRel(3, -4)]);
    let replay = s.on_datagram(&d, "10.0.0.5:4000".to_string(), 2, true, InjectPlatform::Linux);
    assert_eq!(replay.note, Some(DatagramNote::Replayed(1)));
    assert!(replay.injections.is_empty());
}

#[test]
fn replay_window_rejects_duplicates_and_old() {
    let mut w = ReplayWindow::new();
    assert!(!w.is_valid(0));
    assert!(w.is_valid(5));
    assert!(!w.is_valid(5));
    assert!(w.is_valid(3));
    assert!(w.is_valid(2000));
    assert!(!w.is_valid(3));
    assert_eq!(w.max_seq(), 2000);
}

#[test]
fn recent_history_keeps_the_newest() {
    let mut h = RecentHistory::new(2);
    h.push(1);
    h.push(2);
    h.push(3);
    assert!(!h.contains(1));
    assert!(h.contains(2) && h.contains(3));
    h.resize(1);
    assert!(!h.contains(2));
    assert!(h.contains(3));
}

#[test]
fn redundant_copy_of_a_seen_mouse_batch_is_skipped() {
    let mut s = SessionState::new(false, None, "10.0.0.5:4000".to_string(), 1000, 1920, 1080);
    s.on_control(&ControlMsg::SetBatchConfig { max_batch: 8, batch_redundancy: 2 }, 0, 4);
    let first = datagram(7, &[Event::MouseMove { dx: 1, dy: 1 }], 5);
    let out = s.on_datagram(&first, "10.0.0.5:4000".to_string(), 1, true, InjectPlatform::Linux);
    assert_eq!(out.injections, vec![Injection::MoveRel(1, 1)]);
    // The next datagram repeats batch 5 as redundancy: only the new batch moves.
    let mut history: VecDeque<(Vec<Event>, u16)> = VecDeque::new();
    history.push_back((vec![Event::MouseMove { dx: 1, dy: 1 }], 5));
    let mut second = u64_to_le(7).to_vec();
    second.extend(Event::encode_batch(&[Event::MouseMove { dx: 2, dy: 0 }], 6, &history));
    let out2 = s.on_datagram(&second, "10.0.0.5:4000".to_string(), 2, true, InjectPlatform::Linux);
    assert_eq!(out2.injections, vec![Injection::MoveRel(2, 0)]);
    // A lost batch arrives as redundancy and is applied before the current one.
    let mut third_history: VecDeque<(Vec<Event>, u16)> = VecDeque::new();
    third_history.push_back((vec![Event::MouseMove { dx: 3, dy: 3 }], 7));
    let mut third = u64_to_le(7).to_vec();
    third.extend(Event::encode_batch(&[Event::MouseMove { dx: 4, dy: 4 }], 8, &third_history));
    let out3 = s.on_datagram(&third, "10.0.0.5:4000".to_string(), 3, true, InjectPlatform::Linux);
    assert_eq!(out3.injections, vec![Injection::MoveRel(3, 3), Injection::MoveRel(4, 4)]);
}

#[test]
fn local_datagrams_are_tracked_but_not_injected() {
    let mut s = SessionState::new(false, None, "127.0.0.1:4000".to_string(), 1000, 1920, 1080);
    let d = datagram(7, &[Event::KeyDown(30, 1)], 1);
    let out = s.on_datagram(&d, "127.0.0.1:4000".to_string(), 1, false, InjectPlatform::Linux);
    assert!(out.injections.is_empty());
    assert_eq!(out.reports.len(), 1);
    assert!(s.tracker.has_key(30));
}

#[test]
fn replay_window_moves_by_the_whole_jump() {
    let mut w = ReplayWindow::new();
    assert!(w.is_valid(64));
    let mut v = ReplayWindow::new();
    assert!(v.is_valid(1));
    assert!(v.is_valid(101));
    assert!(!v.is_valid(1));
    assert!(v.is_valid(2));
    let mut u = ReplayWindow::new();
    assert!(u.is_valid(1));
    assert!(u.is_valid(65));
    assert!(!u.is_valid(1));
    assert!(u.is_valid(1089));
    assert!(!u.is_valid(65));
    assert!(!u.is_valid(1));
}

#[test]
fn open_server_admits_at_once() {
    let mut h = ServerHandshake::new(false, String::new(), true, 250, 1920, 1080);
    assert!(matches!(h.begin([1u8; 32]), ServerStep::Admit(None)));
    assert_eq!(
        h.session_init(9, [2u8; 16]),
        ControlMsg::SessionInit {
            conn_id: 9,
            uuid: [2u8; 16],
            encrypt: true,
            auth: false,
            key_timeout_ms: 250,
            screen_width: 1920,
            screen_height: 1080,
        }
    );
    assert!(matches!(h.on_message(ControlMsg::Keepalive), ServerStep::Ignore));
}

#[test]
fn wrong_response_is_refused_and_closed() {
    let phc = hash_passphrase("right password");
    let mut h = ServerHandshake::new(true, phc.clone(), false, 0, 800, 600);
    let nonce = [7u8; 32];
    match h.begin(nonce) {
        ServerStep::Send(ControlMsg::AuthChallenge { nonce: n, salt }) => {
            assert_eq!(n, nonce);
            assert!(phc.contains(&salt));
        }
        other => panic!("unexpected {:?}", other),
    }
    let wrong = client_compute_response("wrong password", &phc, &nonce).unwrap();
    assert!(matches!(
        h.on_message(ControlMsg::AuthResponse { hmac: wrong }),
        ServerStep::Close(Some(ControlMsg::AuthResult { ok: false }))
    ));
    assert!(matches!(h.on_message(ControlMsg::Keepalive), ServerStep::Ignore));
}

#[test]
fn right_response_is_admitted() {
    let phc = hash_passphrase("right password");
    let mut h = ServerHandshake::new(true, phc.clone(), false, 0, 800, 600);
    let nonce = [3u8; 32];
    assert!(matches!(h.begin(nonce), ServerStep::Send(_)));
    let right = client_compute_response("right password", &phc, &nonce).unwrap();
    assert!(matches!(
        h.on_message(ControlMsg::AuthResponse { hmac: right }),
        ServerStep::Admit(Some(ControlMsg::AuthResult { ok: true }))
    ));
    assert!(matches!(h.session_init(1, [0u8; 16]), ControlMsg::SessionInit { auth: true, .. }));
}

#[test]
fn other_answer_to_a_challenge_is_refused() {
    let phc = hash_passphrase("pw");
    let mut h = ServerHandshake::new(true, phc, false, 0, 800, 600);
    assert!(matches!(h.begin([0u8; 32]), ServerStep::Send(_)));
    assert!(matches!(
        h.on_message(ControlMsg::Keepalive),
        ServerStep::Close(Some(ControlMsg::AuthResult { ok: false }))
    ));
}

#[test]
fn sequence_advances_once_per_sealed_batch() {
    let key = [9u8; 32];
    let payload = vec![1u8, 2, 3];
    let mut seq: u64 = 5;
    let plain = next_datagram(7, &payload, false, Some(&key), &mut seq).unwrap();
    assert_eq!(seq, 5);
    assert_eq!(plain, vec![7, 0, 0, 0, 0, 0, 0, 0, 1, 2, 3]);
    assert_eq!(next_datagram(7, &payload, true, None, &mut seq), None);
    assert_eq!(seq, 5);
    let sealed = next_datagram(7, &payload, true, Some(&key), &mut seq).unwrap();
    assert_eq!(seq, 6);
    assert_eq!(&sealed[8..16], &5u64.to_le_bytes());
    assert_eq!(decrypt_event(&key, 5, &sealed[16..]), Some(payload.clone()));
    let mut last = u64::MAX;
    assert!(next_datagram(7, &payload, true, Some(&key), &mut last).is_some());
    assert_eq!(last, 0);
}

#[test]
fn datagrams_reach_only_known_sessions() {
    let mut t = SessionTable::new();
    t.insert(7, SessionState::new(false, None, "10.0.0.5:4000".to_string(), 100, 1920, 1080));
    assert!(t.contains(7));
    assert!(!t.contains(8));
    let unknown = datagram(8, &[Event::KeyDown(30, 5)], 1);
    assert!(t.on_datagram(&unknown, "10.0.0.6:4000".to_string(), 10, true, InjectPlatform::Linux).is_none());
    assert!(t.on_datagram(&[7, 0, 0], "10.0.0.5:4000".to_string(), 10, true, InjectPlatform::Linux).is_none());
    let known = datagram(7, &[Event::KeyDown(30, 5)], 1);
    let out = t.on_datagram(&known, "10.0.0.5:4000".to_string(), 10, true, InjectPlatform::Linux).unwrap();
    assert_eq!(out.injections, vec![Injection::KeyDown(30)]);
    assert!(t.contains(7));
    // There is no session 8: sweeping it releases nothing.
    assert!(t.sweep(8).is_empty());
    t.remove(7);
    assert!(!t.contains(7));
    assert!(t.on_datagram(&known, "10.0.0.5:4000".to_string(), 20, true, InjectPlatform::Linux).is_none());
}

