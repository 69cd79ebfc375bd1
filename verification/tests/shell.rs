use spud::config::{CaptureMode, Config, Mode};
use spud::discovery::Registration;
use spud::shell::{Message, Spud, SpudAction};
use spud::views::client::{DiscoveredServer, Message as ClientMessage, Page as ClientPage};
use spud::views::server::Message as ServerMessage;

fn found(fullname: &str) -> DiscoveredServer {
    DiscoveredServer {
        fullname: fullname.to_string(),
        name: "box".to_string(),
        host: "box.local".to_string(),
        port: "7878".to_string(),
        address: "box.local:7878".to_string(),
        addrs: Vec::new(),
        first_ip_text: None,
        icon: spud::icons::DESKTOP,
        auth: false,
        encrypt: false,
    }
}

#[test]
fn changed_settings_are_saved() {
    let mut s = Spud::from_config(&Config::default(), &Vec::new());
    let a = s.update(Message::SwitchMode(Mode::Server));
    assert!(matches!(a.as_slice(), [SpudAction::SaveConfig(c)] if c.mode == Mode::Server));
    let again = s.update(Message::SwitchMode(Mode::Server));
    assert!(again.is_empty());
    let b = s.update(Message::SensitivityChanged("1.50".to_string()));
    assert!(matches!(b.as_slice(), [SpudAction::SaveConfig(c)] if c.client.sensitivity == "1.50"));
}

#[test]
fn a_server_does_not_list_itself() {
    let mut s = Spud::from_config(&Config::default(), &Vec::new());
    s.update(Message::Server(ServerMessage::StartServer(None)));
    s.update(Message::Server(ServerMessage::Registered(Some(Registration::registered(
        "me._spud._tcp.local.".to_string(),
    )))));
    s.update(Message::Client(ClientMessage::DiscoveryFound(found("me._spud._tcp.local."))));
    assert!(s.client.discovered.is_empty());
    s.update(Message::Client(ClientMessage::DiscoveryFound(found("other._spud._tcp.local."))));
    assert_eq!(s.client.discovered.len(), 1);
}

#[test]
fn selecting_a_page_leaves_about() {
    let mut s = Spud::from_config(&Config::default(), &Vec::new());
    s.update(Message::ShowAbout);
    assert!(s.showing_about);
    s.update(Message::Client(ClientMessage::SelectPage(ClientPage::Mouse)));
    assert!(!s.showing_about);
}

#[test]
fn lost_connection_is_sought_again() {
    let mut s = Spud::from_config(&Config::default(), &Vec::new());
    s.update(Message::Client(ClientMessage::HostChanged { host: "box.local".to_string(), ip: None }));
    s.update(Message::Client(ClientMessage::Connect));
    s.update(Message::Client(ClientMessage::ConnectSuccess { phc: None, screen_size: None }));
    let a = s.update(Message::Client(ClientMessage::ConnectionLost));
    match a.last() {
        Some(SpudAction::Reconnect { host, port, generation, timeout_secs }) => {
            assert_eq!(host, "box.local");
            assert_eq!(*port, 7878);
            assert_eq!(*generation, 1);
            assert_eq!(*timeout_secs, 30);
        }
        other => panic!("unexpected {:?}", other),
    }
}

#[test]
fn quitting_waits_for_the_connection() {
    let mut s = Spud::from_config(&Config::default(), &Vec::new());
    assert!(matches!(s.update(Message::Quit { wayland_grabbed: false }).as_slice(), [SpudAction::Exit]));
    s.update(Message::Client(ClientMessage::Connect));
    s.update(Message::Client(ClientMessage::ConnectSuccess { phc: None, screen_size: None }));
    assert!(s.update(Message::Quit { wayland_grabbed: true }).is_empty());
    assert!(matches!(s.update(Message::Quit { wayland_grabbed: false }).as_slice(), [SpudAction::Exit]));
    s.update(Message::Client(ClientMessage::CaptureModeChanged { mode: CaptureMode::Window, wayland_grabbed: false }));
    assert!(s.update(Message::Quit { wayland_grabbed: false }).is_empty());
}

#[test]
fn blanking_makes_the_window_full_screen() {
    let mut s = Spud::from_config(&Config::default(), &Vec::new());
    assert!(matches!(s.update(Message::WindowOpened).as_slice(), [SpudAction::ExtractWaylandHandles]));
    s.update(Message::Client(ClientMessage::BlankScreenToggled(true)));
    s.update(Message::Client(ClientMessage::Connect));
    s.update(Message::Client(ClientMessage::ConnectSuccess { phc: None, screen_size: None }));
    let a = s.update(Message::Client(ClientMessage::WaylandGrabToggled(true)));
    assert!(matches!(a.last(), Some(SpudAction::SetFullscreen(true))));
    assert!(s.blank_screen_fullscreen);
    let b = s.update(Message::SwitchMode(Mode::Server));
    assert!(matches!(b.last(), Some(SpudAction::SetFullscreen(false))));
}
