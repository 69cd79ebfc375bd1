use spud::config::{trust_server, ClientConfig, KnownServers, ServerConfig, ServerIcon};
use spud::discovery::Registration;
use spud::views::client::{
    group_fingerprint, CaptureInput, ClientAction, Message as ClientMessage, Page as ClientPage, State as ClientState,
};
use spud::views::server::{Message, Page, ServerAction, State, StatusNotice};
use spud::views::{tile_text, Tone};
use spud::net::Event;

fn server_config(bind: &str) -> ServerConfig {
    ServerConfig {
        name: "box".to_string(),
        icon: ServerIcon::Laptop,
        bind_address: bind.to_string(),
        port: "7878".to_string(),
        discoverable: true,
        require_auth: true,
        passphrase_hash: String::new(),
        key_timeout_ms: 1000,
        encrypt_udp: true,
    }
}

#[test]
fn server_pages_in_order() {
    let labels: Vec<&str> = Page::ALL.iter().map(|p| p.label()).collect();
    assert_eq!(labels, vec!["Status", "Network", "Security", "Advanced"]);
    assert_eq!(Page::Security.icon(), spud::icons::SHIELD_HALVED);
}

#[test]
fn bind_options_offer_the_saved_address() {
    let ifaces = vec!["192.168.1.5".to_string()];
    let s = State::from_config(&server_config(""), &ifaces);
    assert_eq!(s.bind_address, "0.0.0.0");
    assert_eq!(s.bind_options, vec!["0.0.0.0".to_string(), "192.168.1.5".to_string()]);
    let t = State::from_config(&server_config("10.0.0.1"), &ifaces);
    assert_eq!(t.bind_options, vec!["0.0.0.0".to_string(), "192.168.1.5".to_string(), "10.0.0.1".to_string()]);
    let u = State::from_config(&server_config("192.168.1.5"), &ifaces);
    assert_eq!(u.bind_options.len(), 2);
    assert_eq!(u.to_config().bind_address, "192.168.1.5");
}

#[test]
fn key_timeout_snaps_to_fifty() {
    let mut s = State::from_config(&server_config(""), &vec![]);
    assert!(s.update(Message::KeyTimeoutChanged(1234)).is_empty());
    assert_eq!(s.key_timeout_ms, 1200);
    s.update(Message::KeyTimeoutChanged(49));
    assert_eq!(s.key_timeout_ms, 0);
}

#[test]
fn port_field_takes_short_digit_strings() {
    let mut s = State::from_config(&server_config(""), &vec![]);
    s.update(Message::PortChanged("123456".to_string()));
    assert_eq!(s.port, "7878");
    s.update(Message::PortChanged("80a".to_string()));
    assert_eq!(s.port, "7878");
    s.update(Message::PortChanged("99999".to_string()));
    assert_eq!(s.port, "99999");
    // Out of range for a port: the listener falls back on 7878.
    assert_eq!(s.listen_request().port, 7878);
    s.update(Message::PortChanged("8080".to_string()));
    assert_eq!(s.listen_request().port, 8080);
    assert_eq!(s.listen_request().address, "0.0.0.0");
}

#[test]
fn start_registers_and_stop_withdraws() {
    let mut s = State::from_config(&server_config(""), &vec![]);
    s.passphrase_hash = "$argon2id$stub".to_string();
    let a = s.update(Message::StartServer(None));
    assert!(s.is_running());
    assert_eq!(a.len(), 2);
    assert!(matches!(a[0], ServerAction::Unregister));
    match &a[1] {
        ServerAction::Register(r) => {
            assert_eq!(r.name, "box");
            assert_eq!(r.port, 7878);
            assert_eq!(r.icon, ServerIcon::Laptop);
        }
        other => panic!("unexpected {:?}", other),
    }
    assert!(!s.settings_changed());
    s.update(Message::Registered(Some(Registration::registered("box._spud._tcp.local.".to_string()))));
    assert!(s.owns_fullname("box._spud._tcp.local."));
    assert!(!s.owns_fullname("other._spud._tcp.local."));
    let stop = s.update(Message::StopServer);
    assert!(!s.is_running());
    assert!(matches!(stop[0], ServerAction::CloseListener));
    assert!(matches!(stop[1], ServerAction::Unregister));
    assert!(!s.owns_fullname("box._spud._tcp.local."));
    let late = s.update(Message::Registered(Some(Registration::registered("box._spud._tcp.local.".to_string()))));
    assert_eq!(late.len(), 1);
    assert!(matches!(late[0], ServerAction::Unregister));
    assert!(!s.owns_fullname("box._spud._tcp.local."));
}

#[test]
fn failed_start_reports_the_error() {
    let mut s = State::from_config(&server_config(""), &vec![]);
    let a = s.update(Message::StartServer(Some("address in use".to_string())));
    assert!(a.is_empty());
    assert!(!s.is_running());
    assert_eq!(s.last_error.as_deref(), Some("address in use"));
}

#[test]
fn changed_settings_ask_for_restart() {
    let mut s = State::from_config(&server_config(""), &vec![]);
    s.update(Message::StartServer(None));
    s.update(Message::NameChanged("renamed".to_string()));
    assert!(s.settings_changed());
    assert!(s.status_view(false).offers_restart);
    let a = s.update(Message::RestartServer(None));
    assert!(s.is_running());
    assert!(!s.settings_changed());
    assert!(matches!(&a[1], ServerAction::Register(r) if r.name == "renamed"));
    let b = s.update(Message::RestartServer(Some("bind failed".to_string())));
    assert!(!s.is_running());
    assert_eq!(b.len(), 1);
}

#[test]
fn leaving_security_hashes_the_passphrase() {
    let mut s = State::from_config(&server_config(""), &vec![]);
    s.update(Message::SelectPage(Page::Security));
    s.update(Message::PassphraseChanged("hunter2".to_string()));
    s.update(Message::SelectPage(Page::Status));
    assert_eq!(s.page, Page::Status);
    assert!(s.passphrase.is_empty());
    assert!(s.passphrase_hash.starts_with("$argon2"));
}

#[test]
fn status_view_names_what_is_off() {
    let mut s = State::from_config(&server_config("192.168.1.5"), &vec![]);
    let v = s.status_view(false);
    assert_eq!(v.label, "Stopped");
    assert_eq!(v.tone, Tone::Neutral);
    assert_eq!(v.notice, StatusNotice::SetPassphrase);
    assert!(!v.can_start);
    s.update(Message::RequireAuthToggled(false));
    s.update(Message::EncryptUdpToggled(false));
    assert!(s.status_view(false).can_start);
    assert_eq!(s.status_view(true).notice, StatusNotice::DisconnectClient);
    s.update(Message::StartServer(None));
    let v = s.status_view(false);
    assert_eq!(v.label, "Listening (encryption disabled, no passphrase required)");
    assert_eq!(v.tone, Tone::Danger);
    assert_eq!(v.endpoint.as_deref(), Some("192.168.1.5:7878"));
    assert!(v.can_stop);
}

#[test]
fn client_port_and_pages() {
    let mut c = ClientState::from_config(&ClientConfig::default());
    c.update(ClientMessage::PortChanged("12x".to_string()));
    assert_eq!(c.port, "7878");
    c.update(ClientMessage::SelectPage(ClientPage::Security));
    c.update(ClientMessage::PassphraseChanged("secret".to_string()));
    c.update(ClientMessage::SelectPage(ClientPage::Mouse));
    assert_eq!(c.passphrase, "secret");
    assert!(c.pending_passphrase.is_empty());
}

#[test]
fn client_connection_view() {
    let mut c = ClientState::from_config(&ClientConfig::default());
    let v = c.connection_view(false);
    assert_eq!(v.status, "Disconnected");
    assert!(v.host_missing);
    assert!(!v.can_connect);
    c.update(ClientMessage::HostChanged { host: "example.local".to_string(), ip: None });
    assert!(c.connection_view(false).can_connect);
    assert!(!c.connection_view(true).can_connect);
    c.update(ClientMessage::PortChanged("0".to_string()));
    assert_eq!(c.connection_view(false).port_problem.as_deref(), Some("Port must be between 1 and 65535."));
    c.update(ClientMessage::PortChanged(String::new()));
    assert_eq!(c.connection_view(false).port_problem.as_deref(), Some("Port is required."));
    c.update(ClientMessage::UdpDropPercentChanged(5));
    assert_eq!(c.connection_view(false).drop_notice.as_deref(), Some("Dropping 5% of UDP packets for testing."));
}

#[test]
fn client_sends_each_key_down_once() {
    let mut c = ClientState::from_config(&ClientConfig::default());
    c.update(ClientMessage::Connect);
    c.update(ClientMessage::ConnectSuccess { phc: None, screen_size: Some((1920, 1080)) });
    c.update(ClientMessage::CaptureModeChanged { mode: spud::config::CaptureMode::Window, wayland_grabbed: false });
    c.update(ClientMessage::CaptureHotkey);
    assert!(c.grabbed);
    let a = c.update(ClientMessage::Capture { input: CaptureInput::Key { code: 30, pressed: true }, wayland_grabbed: false });
    assert_eq!(a, vec![ClientAction::Send(Event::KeyDown(30, 0))]);
    let b = c.update(ClientMessage::Capture { input: CaptureInput::Key { code: 30, pressed: true }, wayland_grabbed: false });
    assert!(b.is_empty());
    let up = c.update(ClientMessage::Capture { input: CaptureInput::Key { code: 30, pressed: false }, wayland_grabbed: false });
    assert_eq!(up, vec![ClientAction::Send(Event::KeyUp(30, 0))]);
    assert!(c.pressed_keys.is_empty());
}

#[test]
fn tiles_cut_long_names_and_explain_why() {
    let t = tile_text("living-room-gaming-pc", "192.168.100.200:7878", false);
    assert_eq!(t.name, "living-room-gam...");
    assert_eq!(t.full_name.as_deref(), Some("living-room-gaming-pc"));
    assert_eq!(t.address, "192.168.100.200:7878");
    assert!(t.full_address.is_none());
    assert!(t.has_tooltip);
    let plain = tile_text("desk", "10.0.0.1:7878", false);
    assert!(!plain.has_tooltip);
    assert!(tile_text("desk", "10.0.0.1:7878", true).has_tooltip);
}

#[test]
fn client_capture_flags() {
    let mut c = ClientState::from_config(&ClientConfig::default());
    assert!(!c.is_connected());
    assert!(!c.is_capturing_fullscreen());
    c.update(ClientMessage::Connect);
    c.update(ClientMessage::ConnectSuccess { phc: None, screen_size: None });
    assert!(c.is_connected());
    assert!(c.is_capturing_fullscreen());
    assert!(!c.is_capturing_window());
    assert_eq!(c.connection_passphrase(), None);
    c.update(ClientMessage::PassphraseChanged("pw".to_string()));
    c.update(ClientMessage::BlankScreenToggled(true));
    assert!(!c.is_blank_screen_active());
}

#[test]
fn changed_certificate_dialog() {
    let mut c = ClientState::from_config(&ClientConfig::default());
    let mut known = KnownServers::new();
    assert!(c.fingerprint_dialog_view(&known).is_none());
    c.update(ClientMessage::FingerprintMismatch { host: "box.local".to_string(), port: 7878, new_fingerprint: [0xab; 32] });
    let v = c.fingerprint_dialog_view(&known).unwrap();
    assert_eq!(v.message, "The computer at box.local:7878 has a different security key than last time.");
    assert_eq!(v.toggle_label, "Show nerd stuff");
    assert!(v.new_fingerprint.is_none());
    trust_server(&mut known, "box.local", 7878, [0x01; 32]);
    c.update(ClientMessage::FingerprintDialogToggleFingerprint);
    let w = c.fingerprint_dialog_view(&known).unwrap();
    assert_eq!(w.toggle_label, "Hide nerd stuff");
    assert_eq!(
        w.new_fingerprint.as_deref(),
        Some("abababab abababab abababab abababab\nabababab abababab abababab abababab")
    );
    assert_eq!(
        w.known_fingerprint.as_deref(),
        Some("01010101 01010101 01010101 01010101\n01010101 01010101 01010101 01010101")
    );
    assert_eq!(group_fingerprint("0123456789"), "01234567 89");
    assert_eq!(group_fingerprint(""), "");
}

#[test]
fn client_passphrase_notice() {
    let mut c = ClientState::from_config(&ClientConfig::default());
    assert_eq!(c.passphrase_is_set(), Some(false));
    c.update(ClientMessage::PassphraseChanged("typed".to_string()));
    assert_eq!(c.passphrase_is_set(), None);
    c.update(ClientMessage::SelectPage(ClientPage::Security));
    c.update(ClientMessage::SelectPage(ClientPage::Mouse));
    assert_eq!(c.passphrase_is_set(), Some(true));
    c.update(ClientMessage::RequireAuthToggled(false));
    assert_eq!(c.passphrase_is_set(), None);
}
