//! The application around the two views: which side is shown, what reaches
//! each view, when the settings are saved, when the window goes full screen
//! to blank it, when a lost connection is sought again, and when quitting
//! is allowed.

use vstd::prelude::*;
use vstd::string::StringExecFns;
use crate::config::{CaptureMode, Config, Mode, ServerIcon};
use crate::text::{parse_uint, parse_unsigned, str_eq};
use crate::views::client::{self as client, client_can_take, client_next, ClientAction};
use crate::views::server::{self as server, server_next, ServerAction};

verus! {

/// Everything a configuration records, as values.
pub struct SavedSettings {
    pub mode: Mode,
    pub host: Seq<char>,
    pub client_port: Seq<char>,
    pub sensitivity: Seq<char>,
    pub natural_scroll: bool,
    pub capture_mode: CaptureMode,
    pub hotkey: Seq<char>,
    pub client_require_auth: bool,
    pub client_passphrase_hash: Seq<char>,
    pub keepalive_interval_ms: u16,
    pub reconnect_timeout_secs: u16,
    pub blank_screen: bool,
    pub show_hotkey_on_blank: bool,
    pub client_encrypt_udp: bool,
    pub mouse_batch_size: u8,
    pub batch_redundancy: u8,
    pub udp_drop_percent: u8,
    pub name: Seq<char>,
    pub icon: ServerIcon,
    pub bind_address: Seq<char>,
    pub server_port: Seq<char>,
    pub discoverable: bool,
    pub server_require_auth: bool,
    pub server_passphrase_hash: Seq<char>,
    pub key_timeout_ms: u16,
    pub server_encrypt_udp: bool,
}

/// What a configuration records.
pub open spec fn config_settings(c: Config) -> SavedSettings {
    SavedSettings {
        mode: c.mode,
        host: c.client.host@,
        client_port: c.client.port@,
        sensitivity: c.client.sensitivity@,
        natural_scroll: c.client.natural_scroll,
        capture_mode: c.client.capture_mode,
        hotkey: c.client.hotkey@,
        client_require_auth: c.client.require_auth,
        client_passphrase_hash: c.client.passphrase_hash@,
        keepalive_interval_ms: c.client.keepalive_interval_ms,
        reconnect_timeout_secs: c.client.reconnect_timeout_secs,
        blank_screen: c.client.blank_screen,
        show_hotkey_on_blank: c.client.show_hotkey_on_blank,
        client_encrypt_udp: c.client.encrypt_udp,
        mouse_batch_size: c.client.mouse_batch_size,
        batch_redundancy: c.client.batch_redundancy,
        udp_drop_percent: c.client.udp_drop_percent,
        name: c.server.name@,
        icon: c.server.icon,
        bind_address: c.server.bind_address@,
        server_port: c.server.port@,
        discoverable: c.server.discoverable,
        server_require_auth: c.server.require_auth,
        server_passphrase_hash: c.server.passphrase_hash@,
        key_timeout_ms: c.server.key_timeout_ms,
        server_encrypt_udp: c.server.encrypt_udp,
    }
}

/// The application's state.
pub struct Spud {
    pub mode: Mode,
    pub showing_about: bool,
    pub client: client::State,
    pub server: server::State,
    /// The mouse sensitivity as it is saved, with two decimals.
    pub sensitivity: String,
    /// The window has opened.
    pub window_open: bool,
    /// The window's Wayland handles were asked for.
    pub handles_attempted: bool,
    /// The window is full screen to blank the local screen.
    pub blank_screen_fullscreen: bool,
}

/// What the settings of the application are now.
pub open spec fn saved_settings(s: Spud) -> SavedSettings {
    let c = s.client;
    let v = s.server;
    SavedSettings {
        mode: s.mode,
        host: c.host@,
        client_port: c.port@,
        sensitivity: s.sensitivity@,
        natural_scroll: c.natural_scroll,
        capture_mode: c.capture_mode,
        hotkey: c.hotkey@,
        client_require_auth: c.require_auth,
        client_passphrase_hash: c.passphrase_hash@,
        keepalive_interval_ms: c.keepalive_interval_ms,
        reconnect_timeout_secs: c.reconnect_timeout_secs_value_spec(),
        blank_screen: c.blank_screen,
        show_hotkey_on_blank: c.show_hotkey_on_blank,
        client_encrypt_udp: c.encrypt_udp,
        mouse_batch_size: c.mouse_batch_size,
        batch_redundancy: c.batch_redundancy,
        udp_drop_percent: c.udp_drop_percent,
        name: v.name@,
        icon: v.icon,
        bind_address: v.bind_address@,
        server_port: v.port@,
        discoverable: v.discoverable,
        server_require_auth: v.require_auth,
        server_passphrase_hash: v.passphrase_hash@,
        key_timeout_ms: v.key_timeout_ms,
        server_encrypt_udp: v.encrypt_udp,
    }
}

/// A user action or an event for the application.
#[derive(Debug, Clone)]
pub enum Message {
    SwitchMode(Mode),
    ShowAbout,
    OpenUrl(String),
    Client(client::Message),
    Server(server::Message),
    /// The mouse sensitivity was set; its text with two decimals.
    SensitivityChanged(String),
    WindowOpened,
    /// Quit was asked for; whether the Wayland grab is held.
    Quit { wayland_grabbed: bool },
}

/// What the application asks of its surroundings after a message.
#[derive(Debug, Clone)]
pub enum SpudAction {
    Client(ClientAction),
    Server(ServerAction),
    OpenUrl(String),
    /// Read the window's Wayland handles.
    ExtractWaylandHandles,
    /// Seek the lost connection again for up to `timeout_secs` seconds.
    Reconnect { host: String, port: u16, generation: u64, timeout_secs: u16 },
    SaveConfig(Config),
    /// Make the window full screen, or windowed again.
    SetFullscreen(bool),
    Exit,
}

/// The client's actions, as the application's.
pub open spec fn client_actions(a: Seq<ClientAction>) -> Seq<SpudAction> {
    a.map_values(|x: ClientAction| SpudAction::Client(x))
}

/// The server's actions, as the application's.
pub open spec fn server_actions(a: Seq<ServerAction>) -> Seq<SpudAction> {
    a.map_values(|x: ServerAction| SpudAction::Server(x))
}

/// The port a reconnection uses: the client's port field, or 7878.
pub open spec fn reconnect_port(port: Seq<char>) -> u16 {
    match parse_unsigned(port, 65535) {
        Some(v) => v as u16,
        None => 7878,
    }
}

/// `r` asks to seek the connection of client state `c` again.
pub open spec fn reconnects(c: client::State, r: SpudAction) -> bool {
    r matches SpudAction::Reconnect { host, port, generation, timeout_secs } && host@ == c.host@ && port
        == reconnect_port(c.port@) && generation == c.reconnect_generation && timeout_secs
        == c.reconnect_timeout_secs_value_spec()
}

/// Quitting is allowed: no connection runs, or the whole screen is
/// captured but the Wayland grab is not held.
pub open spec fn may_quit(c: client::State, wayland_grabbed: bool) -> bool {
    !c.connected || (c.connected && c.capture_mode == CaptureMode::Fullscreen && !wayland_grabbed)
}

/// The state `t` and actions `a` that handling message `m` gives in `s`,
/// before saving and blanking are looked at.
pub open spec fn handled(s: Spud, m: Message, t: Spud, a: Seq<SpudAction>) -> bool {
    match m {
        Message::SwitchMode(md) => t == (Spud { mode: md, ..s }) && a.len() == 0,
        Message::ShowAbout => t == (Spud { showing_about: true, ..s }) && a.len() == 0,
        Message::OpenUrl(u) => t == s && a == seq![SpudAction::OpenUrl(u)],
        Message::SensitivityChanged(v) => t == (Spud { sensitivity: v, ..s }) && a.len() == 0,
        Message::WindowOpened => if s.handles_attempted {
            t == s && a.len() == 0
        } else {
            t == (Spud { handles_attempted: true, window_open: true, ..s }) && a == seq![
                SpudAction::ExtractWaylandHandles,
            ]
        },
        Message::Quit { wayland_grabbed } => t == s && a == (if may_quit(s.client, wayland_grabbed) {
            seq![SpudAction::Exit]
        } else {
            Seq::empty()
        }),
        Message::Server(sm) => {
            let about = if sm is SelectPage { false } else { s.showing_about };
            &&& t == (Spud { showing_about: about, server: t.server, ..s })
            &&& exists|sa: Seq<ServerAction>| server_next(s.server, sm, t.server, sa) && a == server_actions(sa)
        },
        Message::Client(cm) => {
            let about = if cm is SelectPage { false } else { s.showing_about };
            if cm matches client::Message::DiscoveryFound(d) && s.server.registration matches Some(r)
                && r.fullname_spec() == d.fullname@ {
                t == (Spud { showing_about: about, ..s }) && a.len() == 0
            } else {
                &&& t == (Spud { showing_about: about, client: t.client, ..s })
                &&& exists|ca: Seq<ClientAction>|
                    {
                        &&& client_next(s.client, cm, t.client, ca)
                        &&& if cm is ConnectionLost && t.client.reconnecting {
                            &&& a.len() == ca.len() + 1
                            &&& a.take(ca.len() as int) == client_actions(ca)
                            &&& reconnects(t.client, a.last())
                        } else {
                            a == client_actions(ca)
                        }
                    }
            }
        },
    }
}

/// The window should be full screen: the client is shown and blanks the
/// local screen.
pub open spec fn wants_fullscreen(s: Spud) -> bool {
    s.mode == Mode::Client && s.client.connected && s.client.capture_mode == CaptureMode::Fullscreen
        && s.client.user_capturing && s.client.blank_screen
}

/// After a message was handled from `s` to `h` with actions `ha`: the
/// settings are saved where they changed, then the window follows the
/// blanking where it is open.
pub open spec fn settled(s: Spud, h: Spud, ha: Seq<SpudAction>, t: Spud, a: Seq<SpudAction>) -> bool {
    let changed = saved_settings(s) != saved_settings(h);
    let flip = h.window_open && wants_fullscreen(h) != h.blank_screen_fullscreen;
    &&& t == (if flip { Spud { blank_screen_fullscreen: wants_fullscreen(h), ..h } } else { h })
    &&& a.len() == ha.len() + (if changed { 1int } else { 0 }) + (if flip { 1int } else { 0 })
    &&& a.take(ha.len() as int) == ha
    &&& changed ==> (a[ha.len() as int] matches SpudAction::SaveConfig(c) && config_settings(c) == saved_settings(h))
    &&& flip ==> a.last() == SpudAction::SetFullscreen(wants_fullscreen(h))
}

/// The application can take the message: its client view is sound, and a
/// client message is one the client can take.
pub open spec fn spud_can_take(s: Spud, m: Message) -> bool {
    &&& s.client.wf()
    &&& (m matches Message::Client(cm) ==> client_can_take(s.client, cm))
}

/// Whether two configurations record the same settings.
fn same_config(a: &Config, b: &Config) -> (r: bool)
    ensures
        r == (config_settings(*a) == config_settings(*b)),
{
    let (c, d) = (&a.client, &b.client);
    let (v, w) = (&a.server, &b.server);
    a.mode == b.mode && str_eq(c.host.as_str(), d.host.as_str()) && str_eq(c.port.as_str(), d.port.as_str())
        && str_eq(c.sensitivity.as_str(), d.sensitivity.as_str()) && c.natural_scroll == d.natural_scroll
        && c.capture_mode == d.capture_mode && str_eq(c.hotkey.as_str(), d.hotkey.as_str()) && c.require_auth
        == d.require_auth && str_eq(c.passphrase_hash.as_str(), d.passphrase_hash.as_str())
        && c.keepalive_interval_ms == d.keepalive_interval_ms && c.reconnect_timeout_secs
        == d.reconnect_timeout_secs && c.blank_screen == d.blank_screen && c.show_hotkey_on_blank
        == d.show_hotkey_on_blank && c.encrypt_udp == d.encrypt_udp && c.mouse_batch_size == d.mouse_batch_size
        && c.batch_redundancy == d.batch_redundancy && c.udp_drop_percent == d.udp_drop_percent && str_eq(
        v.name.as_str(),
        w.name.as_str(),
    ) && v.icon == w.icon && str_eq(v.bind_address.as_str(), w.bind_address.as_str()) && str_eq(
        v.port.as_str(),
        w.port.as_str(),
    ) && v.discoverable == w.discoverable && v.require_auth == w.require_auth && str_eq(
        v.passphrase_hash.as_str(),
        w.passphrase_hash.as_str(),
    ) && v.key_timeout_ms == w.key_timeout_ms && v.encrypt_udp == w.encrypt_udp
}

impl Spud {
    /// The application for saved settings, as they were loaded, with the
    /// addresses of the machine's interfaces as text.
    pub fn from_config(config: &Config, interface_addr_texts: &Vec<String>) -> (s: Self)
        ensures
            s.client.wf(),
            saved_settings(s) == (SavedSettings {
                reconnect_timeout_secs: saved_settings(s).reconnect_timeout_secs,
                bind_address: saved_settings(s).bind_address,
                ..config_settings(*config)
            }),
            !s.showing_about && !s.window_open && !s.handles_attempted && !s.blank_screen_fullscreen,
    {
        Spud {
            mode: config.mode,
            showing_about: false,
            client: client::State::from_config(&config.client),
            server: server::State::from_config(&config.server, interface_addr_texts),
            sensitivity: config.client.sensitivity.clone(),
            window_open: false,
            handles_attempted: false,
            blank_screen_fullscreen: false,
        }
    }

    /// The settings to save.
    pub fn current_config(&self) -> (c: Config)
        ensures
            config_settings(c) == saved_settings(*self),
    {
        Config {
            mode: self.mode,
            client: self.client.to_config(self.sensitivity.clone()),
            server: self.server.to_config(),
        }
    }

    /// Handle one message, before saving and blanking.
    fn handle(&mut self, m: Message) -> (a: Vec<SpudAction>)
        requires
            spud_can_take(*old(self), m),
        ensures
            final(self).client.wf(),
            handled(*old(self), m, *final(self), a@),
    {
        let mut out: Vec<SpudAction> = Vec::new();
        match m {
            Message::SwitchMode(md) => {
                self.mode = md;
            },
            Message::ShowAbout => {
                self.showing_about = true;
            },
            Message::OpenUrl(u) => {
                out.push(SpudAction::OpenUrl(u));
            },
            Message::SensitivityChanged(v) => {
                self.sensitivity = v;
            },
            Message::WindowOpened => {
                if !self.handles_attempted {
                    self.handles_attempted = true;
                    self.window_open = true;
                    out.push(SpudAction::ExtractWaylandHandles);
                }
            },
            Message::Quit { wayland_grabbed } => {
                let hotkey_ungrabbed = self.client.is_capturing_fullscreen() && !wayland_grabbed;
                if !self.client.is_connected() || hotkey_ungrabbed {
                    out.push(SpudAction::Exit);
                }
            },
            Message::Server(sm) => {
                if let server::Message::SelectPage(_) = sm {
                    self.showing_about = false;
                }
                let mut sa = self.server.update(sm);
                let ghost all = sa@;
                while sa.len() > 0
                    invariant
                        out@ + server_actions(sa@) == server_actions(all),
                    decreases sa@.len(),
                {
                    let ghost before = sa@;
                    let x = sa.remove(0);
                    proof {
                        assert(server_actions(before) =~= seq![SpudAction::Server(x)] + server_actions(sa@));
                        assert(out@.push(SpudAction::Server(x)) + server_actions(sa@) =~= out@ + server_actions(before));
                    }
                    out.push(SpudAction::Server(x));
                }
                assert(out@ =~= server_actions(all));
            },
            Message::Client(cm) => {
                if let client::Message::SelectPage(_) = cm {
                    self.showing_about = false;
                }
                let own = match &cm {
                    client::Message::DiscoveryFound(d) => self.server.owns_fullname(d.fullname.as_str()),
                    _ => false,
                };
                if !own {
                    let was_lost = match cm {
                        client::Message::ConnectionLost => true,
                        _ => false,
                    };
                    let mut ca = self.client.update(cm);
                    let ghost all = ca@;
                    while ca.len() > 0
                        invariant
                            out@ + client_actions(ca@) == client_actions(all),
                        decreases ca@.len(),
                    {
                        let ghost before = ca@;
                        let x = ca.remove(0);
                        proof {
                            assert(client_actions(before) =~= seq![SpudAction::Client(x)] + client_actions(ca@));
                            assert(out@.push(SpudAction::Client(x)) + client_actions(ca@) =~= out@ + client_actions(before));
                        }
                        out.push(SpudAction::Client(x));
                    }
                    assert(out@ =~= client_actions(all));
                    if was_lost && self.client.is_reconnecting() {
                        let port = match parse_uint(self.client.port.as_str(), 65535) {
                            Some(p) => p as u16,
                            None => 7878,
                        };
                        out.push(
                            SpudAction::Reconnect {
                                host: self.client.host.clone(),
                                port,
                                generation: self.client.reconnect_generation,
                                timeout_secs: self.client.reconnect_timeout_secs_value(),
                            },
                        );
                        assert(out@.take(all.len() as int) =~= client_actions(all));
                    }
                }
            },
        }
        out
    }

    /// Take one message: handle it, save the settings where they changed,
    /// and make the window full screen or windowed where the blanking of
    /// the local screen changed.
    pub fn update(&mut self, m: Message) -> (a: Vec<SpudAction>)
        requires
            spud_can_take(*old(self), m),
        ensures
            final(self).client.wf(),
            exists|h: Spud, ha: Seq<SpudAction>| handled(*old(self), m, h, ha) && settled(*old(self), h, ha, *final(self), a@),
    {
        let before = self.current_config();
        let mut a = self.handle(m);
        let ghost h = *self;
        let ghost ha = a@;
        let after = self.current_config();
        if !same_config(&before, &after) {
            a.push(SpudAction::SaveConfig(after));
        }
        let ghost hs = a@;
        if self.window_open {
            let should = self.mode == Mode::Client && self.client.is_blank_screen_active();
            if should != self.blank_screen_fullscreen {
                self.blank_screen_fullscreen = should;
                a.push(SpudAction::SetFullscreen(should));
            }
        }
        proof {
            assert(a@.take(ha.len() as int) =~= ha);
            assert(handled(*old(self), m, h, ha));
        }
        a
    }
}

} // verus!
