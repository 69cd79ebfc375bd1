//! The client's settings and connection state, and how each user action or
//! connection event changes it and what it asks to be sent.

use vstd::prelude::*;
use vstd::string::StringExecFns;
use crate::cert::{format_fingerprint, hex_char, hex_text};
use crate::config::{server_key, server_key_text, CaptureMode, ClientConfig, KnownServers};
use crate::discovery::{ip_eq, IpAddress};
use crate::icons;
use crate::net::protocol::ControlMsg;
use crate::net::Event;
use crate::input::InputEvent;
use crate::text::{chars_lt, is_digit, parse_uint, parse_unsigned, push_decimal, decimal, str_eq};
use crate::views::Tone;
use crate::views::server::{copy_text, opt_same};

verus! {

/// The pages of the client's settings.
#[derive(Debug, Clone, Copy, PartialEq, Eq, Structural)]
pub enum Page {
    Connection,
    Capture,
    Mouse,
    Security,
    Advanced,
}

impl Page {
    /// All pages, in navigation order.
    pub const ALL: [Page; 5] = [Page::Connection, Page::Capture, Page::Mouse, Page::Security, Page::Advanced];

    /// The page's name in the navigation.
    pub fn label(self) -> (s: &'static str)
        ensures
            s@ == (match self {
                Page::Connection => "Connection"@,
                Page::Mouse => "Mouse"@,
                Page::Capture => "Capture"@,
                Page::Security => "Security"@,
                Page::Advanced => "Advanced"@,
            }),
    {
        match self {
            Page::Connection => "Connection",
            Page::Mouse => "Mouse",
            Page::Capture => "Capture",
            Page::Security => "Security",
            Page::Advanced => "Advanced",
        }
    }

    /// The page's icon glyph.
    pub fn icon(self) -> (c: char)
        ensures
            c == (match self {
                Page::Connection => icons::PLUG,
                Page::Mouse => icons::COMPUTER_MOUSE,
                Page::Capture => icons::KEYBOARD,
                Page::Security => icons::SHIELD_HALVED,
                Page::Advanced => icons::GEAR,
            }),
    {
        match self {
            Page::Connection => icons::PLUG,
            Page::Mouse => icons::COMPUTER_MOUSE,
            Page::Capture => icons::KEYBOARD,
            Page::Security => icons::SHIELD_HALVED,
            Page::Advanced => icons::GEAR,
        }
    }
}

/// The capture modes offered, in order.
pub const CAPTURE_MODES: [CaptureMode; 2] = [CaptureMode::Fullscreen, CaptureMode::Window];

/// A server found by discovery.
#[derive(Debug, Clone, PartialEq, Eq)]
pub struct DiscoveredServer {
    pub fullname: String,
    pub name: String,
    pub host: String,
    pub port: String,
    pub address: String,
    /// Its usable addresses with its port, IPv4 first.
    pub addrs: Vec<(IpAddress, u16)>,
    /// The first address as text, if it has one.
    pub first_ip_text: Option<String>,
    pub icon: char,
    pub auth: bool,
    pub encrypt: bool,
}

/// The dialog shown when a server's certificate changed.
#[derive(Debug, Clone, PartialEq, Eq)]
pub struct FingerprintDialogState {
    pub host: String,
    pub port: u16,
    pub new_fingerprint: [u8; 32],
    pub show_fingerprint: bool,
}

/// An input captured from the window, already translated where that took
/// the window's geometry.
#[derive(Debug, Clone, Copy, PartialEq, Eq)]
pub enum CaptureInput {
    /// A key with this evdev scancode went down or up.
    Key { code: u16, pressed: bool },
    /// A mouse button went down or up.
    Button { button: u8, pressed: bool },
    /// A pointer or wheel event, ready to send.
    Wire(Event),
    /// Anything else.
    Other,
}

/// A user action or connection event.
#[derive(Debug, Clone)]
pub enum Message {
    SelectPage(Page),
    /// The host text changed; `ip` is the address it reads as, if any.
    HostChanged { host: String, ip: Option<IpAddress> },
    PortChanged(String),
    Connect,
    /// Connected; the PHC string to remember, and the server's screen.
    ConnectSuccess { phc: Option<String>, screen_size: Option<(u16, u16)> },
    ConnectFailed(String),
    Disconnect,
    NaturalScrollToggled(bool),
    /// The capture mode changed; whether the Wayland grab is held now.
    CaptureModeChanged { mode: CaptureMode, wayland_grabbed: bool },
    RequireAuthToggled(bool),
    PassphraseChanged(String),
    SelectDiscovered(usize),
    DiscoveryFound(DiscoveredServer),
    DiscoveryLost(String),
    OpenHotkeyDialog,
    CloseHotkeyDialog,
    ConfirmHotkey,
    /// A key in the hotkey dialog: Escape, or the chord it forms (none for
    /// a lone modifier).
    HotkeyInput { escape: bool, chord: Option<String> },
    /// The captured key press formed the configured hotkey.
    CaptureHotkey,
    /// The Wayland grab was toggled and is now `grabbed`.
    WaylandGrabToggled(bool),
    /// An input captured from the window; whether the Wayland grab is held.
    Capture { input: CaptureInput, wayland_grabbed: bool },
    /// An event of the hotkey backend.
    HotkeyEvent(InputEvent),
    ConnectionLost,
    ReconnectSuccess { generation: u64, screen_size: Option<(u16, u16)> },
    ReconnectFailed(u64),
    KeyRepeatTick,
    KeepaliveTick,
    KeyRepeatIntervalChanged(u16),
    KeepaliveIntervalChanged(u16),
    ReconnectTimeoutChanged(String),
    BlankScreenToggled(bool),
    ShowHotkeyOnBlankToggled(bool),
    EncryptUdpToggled(bool),
    MouseBatchSizeChanged(u8),
    BatchRedundancyChanged(u8),
    UdpDropPercentChanged(u8),
    FingerprintMismatch { host: String, port: u16, new_fingerprint: [u8; 32] },
    FingerprintDialogCancel,
    FingerprintDialogAllowOnce,
    FingerprintDialogTrust,
    FingerprintDialogToggleFingerprint,
    /// A cancellation handle for the reconnection in progress was set.
    ReconnectCancelSet,
}

/// What the client asks of its connection and platform after a message.
#[derive(Debug, Clone, PartialEq, Eq)]
pub enum ClientAction {
    /// Send an event over UDP.
    Send(Event),
    /// Send a pointer move scaled by the mouse sensitivity.
    SendScaledMove { dx: i16, dy: i16 },
    /// Send a control message over TLS.
    SendControl(ControlMsg),
    /// Tell the sender about a new batch size, redundancy or loss rate.
    SetMouseBatchSize(u8),
    SetBatchRedundancy(u8),
    SetUdpDropPercent(u8),
    /// Keep the new connection's sender.
    KeepSender,
    /// Drop the connection's sender.
    DropSender,
    /// Cancel the reconnection in progress.
    CancelReconnect,
    /// Forget the last cursor position.
    ResetCursor,
    /// Flip the Wayland grab.
    ToggleWaylandGrab,
    /// Report the mouse scale now in effect.
    ReportMouseScale,
    /// Report a backend error.
    ReportError(String),
}

/// Send a control message, as an action.
pub open spec fn control(m: ControlMsg) -> ClientAction {
    ClientAction::SendControl(m)
}

/// How often held keys are repeated by default, in milliseconds: half the
/// server's default key timeout, so that one lost repeat is survived.
pub const DEFAULT_KEY_REPEAT_INTERVAL_MS: u16 = 500;

/// The client's state.
pub struct State {
    pub page: Page,
    pub host: String,
    pub host_ip: Option<IpAddress>,
    pub port: String,
    pub connected: bool,
    pub connecting: bool,
    pub natural_scroll: bool,
    pub capture_mode: CaptureMode,
    pub hotkey: String,
    pub require_auth: bool,
    pub passphrase: String,
    pub pending_passphrase: String,
    pub passphrase_hash: String,
    pub discovered: Vec<DiscoveredServer>,
    pub selected_addrs: Vec<(IpAddress, u16)>,
    pub selected_fullname: Option<String>,
    pub has_reconnect_cancel: bool,
    pub hotkey_dialog_open: bool,
    pub pending_hotkey: String,
    pub has_sender: bool,
    pub last_error: Option<String>,
    pub pressed_keys: Vec<u16>,
    pub pressed_mouse_buttons: Vec<u8>,
    pub key_repeat_interval_ms: u16,
    pub reconnecting: bool,
    pub reconnect_generation: u64,
    pub keepalive_interval_ms: u16,
    pub reconnect_timeout_secs: String,
    pub blank_screen: bool,
    pub show_hotkey_on_blank: bool,
    pub mouse_batch_size: u8,
    pub batch_redundancy: u8,
    pub udp_drop_percent: u8,
    pub grabbed: bool,
    /// The user's intent to capture; it outlives a grab the backend lost.
    pub user_capturing: bool,
    pub encrypt_udp: bool,
    pub server_screen_size: Option<(u16, u16)>,
    pub fingerprint_dialog: Option<FingerprintDialogState>,
}

/// Text of at most five ASCII digits: what the port and timeout fields
/// accept.
pub open spec fn short_digits(s: Seq<char>) -> bool {
    s.len() <= 5 && forall|i: int| 0 <= i < s.len() ==> is_digit(#[trigger] s[i])
}

/// Whether a text is at most five ASCII digits.
pub fn is_short_digits(s: &str) -> (b: bool)
    ensures
        b == short_digits(s@),
{
    let n = s.unicode_len();
    if n > 5 {
        return false;
    }
    let mut i: usize = 0;
    while i < n
        invariant
            n == s@.len(),
            i <= n,
            forall|j: int| 0 <= j < i ==> is_digit(#[trigger] s@[j]),
        decreases n - i,
    {
        let c = s.get_char(i);
        if !('0' <= c && c <= '9') {
            return false;
        }
        i += 1;
    }
    true
}

/// Another value than `v`.
pub open spec fn not_value<T>(v: T) -> spec_fn(T) -> bool {
    |x: T| x != v
}

/// No value occurs twice.
pub open spec fn no_dups<T>(s: Seq<T>) -> bool {
    forall|i: int, j: int| 0 <= i < j < s.len() ==> s[i] != s[j]
}

/// Add a key to the held set; true when it was not held.
/// `candidate` where it is not empty, else `current`.
fn nonempty_or(candidate: &String, current: &String) -> (r: String)
    ensures
        r@ == (if candidate@.len() > 0 { candidate@ } else { current@ }),
{
    if candidate.as_str().unicode_len() > 0 {
        candidate.clone()
    } else {
        current.clone()
    }
}

fn press_key(keys: &mut Vec<u16>, code: u16) -> (added: bool)
    requires
        no_dups(old(keys)@),
    ensures
        no_dups(final(keys)@),
        added == !old(keys)@.contains(code),
        final(keys)@ == (if added { old(keys)@.push(code) } else { old(keys)@ }),
{
    let mut i: usize = 0;
    while i < keys.len()
        invariant
            i <= keys@.len(),
            no_dups(keys@),
            forall|j: int| 0 <= j < i ==> keys@[j] != code,
        decreases keys@.len() - i,
    {
        if keys[i] == code {
            return false;
        }
        i += 1;
    }
    keys.push(code);
    true
}

/// Remove a key from the held set.
fn release_key(keys: &mut Vec<u16>, code: u16)
    requires
        no_dups(old(keys)@),
    ensures
        no_dups(final(keys)@),
        final(keys)@ == old(keys)@.filter(not_value::<u16>(code)),
{
    let ghost k0 = keys@;
    let mut out: Vec<u16> = Vec::new();
    let mut i: usize = 0;
    proof {
        reveal(Seq::filter);
        assert(k0.take(0).filter(not_value::<u16>(code)) =~= Seq::<u16>::empty());
    }
    while i < keys.len()
        invariant
            keys@ == k0,
            i <= k0.len(),
            no_dups(k0),
            out@ == k0.take(i as int).filter(not_value::<u16>(code)),
            forall|x: u16| out@.contains(x) ==> k0.take(i as int).contains(x),
            no_dups(out@),
        decreases k0.len() - i,
    {
        let c = keys[i];
        let ghost old_out = out@;
        proof {
            assert(k0.take(i + 1) =~= k0.take(i as int).push(c));
            k0.take(i as int).lemma_filter_push(c, not_value::<u16>(code));
        }
        if c != code {
            proof {
                assert forall|j: int| 0 <= j < out@.len() implies out@[j] != c by {
                    assert(out@.contains(out@[j]));
                    assert(k0.take(i as int).contains(out@[j]));
                }
            }
            out.push(c);
        }
        proof {
            assert forall|x: u16| out@.contains(x) implies k0.take(i + 1).contains(x) by {
                let j = choose|j: int| 0 <= j < out@.len() && out@[j] == x;
                if j < old_out.len() {
                    assert(old_out[j] == x);
                    assert(old_out.contains(x));
                    let m = choose|m: int| 0 <= m < i && k0.take(i as int)[m] == x;
                    assert(k0.take(i + 1)[m] == x);
                } else {
                    assert(x == c);
                    assert(k0.take(i + 1)[i as int] == c);
                }
            }
        }
        i += 1;
    }
    proof {
        assert(k0.take(k0.len() as int) =~= k0);
    }
    *keys = out;
}

/// Add a button to the held set; true when it was not held.
fn press_button(buttons: &mut Vec<u8>, b: u8) -> (added: bool)
    requires
        no_dups(old(buttons)@),
    ensures
        no_dups(final(buttons)@),
        added == !old(buttons)@.contains(b),
        final(buttons)@ == (if added { old(buttons)@.push(b) } else { old(buttons)@ }),
{
    let mut i: usize = 0;
    while i < buttons.len()
        invariant
            i <= buttons@.len(),
            no_dups(buttons@),
            forall|j: int| 0 <= j < i ==> buttons@[j] != b,
        decreases buttons@.len() - i,
    {
        if buttons[i] == b {
            return false;
        }
        i += 1;
    }
    buttons.push(b);
    true
}

/// Remove a button from the held set.
fn release_button(buttons: &mut Vec<u8>, b: u8)
    requires
        no_dups(old(buttons)@),
    ensures
        no_dups(final(buttons)@),
        final(buttons)@ == old(buttons)@.filter(not_value::<u8>(b)),
{
    let ghost k0 = buttons@;
    let mut out: Vec<u8> = Vec::new();
    let mut i: usize = 0;
    proof {
        reveal(Seq::filter);
        assert(k0.take(0).filter(not_value::<u8>(b)) =~= Seq::<u8>::empty());
    }
    while i < buttons.len()
        invariant
            buttons@ == k0,
            i <= k0.len(),
            no_dups(k0),
            out@ == k0.take(i as int).filter(not_value::<u8>(b)),
            forall|x: u8| out@.contains(x) ==> k0.take(i as int).contains(x),
            no_dups(out@),
        decreases k0.len() - i,
    {
        let c = buttons[i];
        let ghost old_out = out@;
        proof {
            assert(k0.take(i + 1) =~= k0.take(i as int).push(c));
            k0.take(i as int).lemma_filter_push(c, not_value::<u8>(b));
        }
        if c != b {
            proof {
                assert forall|j: int| 0 <= j < out@.len() implies out@[j] != c by {
                    assert(out@.contains(out@[j]));
                    assert(k0.take(i as int).contains(out@[j]));
                }
            }
            out.push(c);
        }
        proof {
            assert forall|x: u8| out@.contains(x) implies k0.take(i + 1).contains(x) by {
                let j = choose|j: int| 0 <= j < out@.len() && out@[j] == x;
                if j < old_out.len() {
                    assert(old_out[j] == x);
                    assert(old_out.contains(x));
                    let m = choose|m: int| 0 <= m < i && k0.take(i as int)[m] == x;
                    assert(k0.take(i + 1)[m] == x);
                } else {
                    assert(x == c);
                    assert(k0.take(i + 1)[i as int] == c);
                }
            }
        }
        i += 1;
    }
    proof {
        assert(k0.take(k0.len() as int) =~= k0);
    }
    *buttons = out;
}

/// The wire event for a pressed or released key or button, and whether it
/// is sent: a press of something already held (an auto-repeat) is not.
pub open spec fn key_wire(held: Seq<u16>, code: u16, pressed: bool) -> Option<Event> {
    if pressed {
        if held.contains(code) {
            None
        } else {
            Some(Event::KeyDown(code, 0))
        }
    } else {
        Some(Event::KeyUp(code, 0))
    }
}

/// The wire event for a pressed or released mouse button.
pub open spec fn button_wire(held: Seq<u8>, b: u8, pressed: bool) -> Option<Event> {
    if pressed {
        if held.contains(b) {
            None
        } else {
            Some(Event::MouseButton { button: b, pressed: true })
        }
    } else {
        Some(Event::MouseButton { button: b, pressed: false })
    }
}

/// The repeats sent for the held keys and buttons.
pub open spec fn repeat_events(keys: Seq<u16>, buttons: Seq<u8>) -> Seq<ClientAction> {
    keys.map_values(|c: u16| ClientAction::Send(Event::KeyRepeat(c, 0))) + buttons.map_values(
        |b: u8| ClientAction::Send(Event::MouseButtonRepeat(b)),
    )
}

/// The releases sent for the held keys and buttons.
pub open spec fn release_events(keys: Seq<u16>, buttons: Seq<u8>) -> Seq<ClientAction> {
    keys.map_values(|c: u16| ClientAction::Send(Event::KeyUp(c, 0))) + buttons.map_values(
        |b: u8| ClientAction::Send(Event::MouseButton { button: b, pressed: false }),
    )
}

/// The scancode of an X11 keycode: 8 less, at least 0.
pub open spec fn evdev_of_x11(keycode: u8) -> u16 {
    if keycode >= 8 {
        (keycode - 8) as u16
    } else {
        0
    }
}

/// The configured batch settings, as a control message.
pub open spec fn batch_config(s: State) -> ControlMsg {
    ControlMsg::SetBatchConfig { max_batch: s.mouse_batch_size, batch_redundancy: s.batch_redundancy }
}

/// The first discovered server on `port` that has the address `ip`.
pub open spec fn matching_server(ds: Seq<DiscoveredServer>, port: Seq<char>, ip: IpAddress) -> Option<int> {
    if exists|i: int|
        0 <= i < ds.len() && ds[i].port@ == port && (exists|k: int|
            0 <= k < ds[i].addrs@.len() && ds[i].addrs@[k].0 == ip) {
        Some(
            choose|i: int|
                0 <= i < ds.len() && ds[i].port@ == port && (exists|k: int|
                    0 <= k < ds[i].addrs@.len() && ds[i].addrs@[k].0 == ip) && forall|j: int|
                    0 <= j < i ==> !(ds[j].port@ == port && (exists|k: int|
                        0 <= k < ds[j].addrs@.len() && ds[j].addrs@[k].0 == ip)),
        )
    } else {
        None
    }
}

impl State {
    /// The state's own invariant: held keys and buttons occur once each.
    pub open spec fn wf(&self) -> bool {
        no_dups(self.pressed_keys@) && no_dups(self.pressed_mouse_buttons@)
    }

    /// The state for saved settings: not connected, on the connection page.
    pub fn from_config(cfg: &ClientConfig) -> (s: Self)
        ensures
            s.wf(),
            s.page == Page::Connection,
            s.host@ == cfg.host@,
            s.port@ == cfg.port@,
            !s.connected && !s.connecting && !s.reconnecting && !s.has_sender,
            s.natural_scroll == cfg.natural_scroll,
            s.capture_mode == cfg.capture_mode,
            s.hotkey@ == cfg.hotkey@,
            s.require_auth == cfg.require_auth,
            s.passphrase_hash@ == cfg.passphrase_hash@,
            s.key_repeat_interval_ms == DEFAULT_KEY_REPEAT_INTERVAL_MS,
            s.keepalive_interval_ms == cfg.keepalive_interval_ms,
            s.reconnect_timeout_secs@ == crate::text::decimal(cfg.reconnect_timeout_secs as nat),
            s.blank_screen == cfg.blank_screen,
            s.show_hotkey_on_blank == cfg.show_hotkey_on_blank,
            s.mouse_batch_size == cfg.mouse_batch_size,
            s.batch_redundancy == cfg.batch_redundancy,
            s.udp_drop_percent == cfg.udp_drop_percent,
            s.encrypt_udp == cfg.encrypt_udp,
            s.pressed_keys@.len() == 0,
            s.pressed_mouse_buttons@.len() == 0,
            s.discovered@.len() == 0,
            !s.grabbed && !s.user_capturing,
            s.fingerprint_dialog is None,
            s.reconnect_generation == 0,
    {
        let mut timeout = String::new();
        crate::text::push_decimal(&mut timeout, cfg.reconnect_timeout_secs as u64);
        State {
            page: Page::Connection,
            host: cfg.host.clone(),
            host_ip: None,
            port: cfg.port.clone(),
            connected: false,
            connecting: false,
            natural_scroll: cfg.natural_scroll,
            capture_mode: cfg.capture_mode,
            hotkey: cfg.hotkey.clone(),
            require_auth: cfg.require_auth,
            passphrase: String::new(),
            pending_passphrase: String::new(),
            passphrase_hash: cfg.passphrase_hash.clone(),
            discovered: Vec::new(),
            selected_addrs: Vec::new(),
            selected_fullname: None,
            has_reconnect_cancel: false,
            hotkey_dialog_open: false,
            pending_hotkey: String::new(),
            has_sender: false,
            last_error: None,
            pressed_keys: Vec::new(),
            pressed_mouse_buttons: Vec::new(),
            key_repeat_interval_ms: DEFAULT_KEY_REPEAT_INTERVAL_MS,
            reconnecting: false,
            reconnect_generation: 0,
            keepalive_interval_ms: cfg.keepalive_interval_ms,
            reconnect_timeout_secs: timeout,
            blank_screen: cfg.blank_screen,
            show_hotkey_on_blank: cfg.show_hotkey_on_blank,
            mouse_batch_size: cfg.mouse_batch_size,
            batch_redundancy: cfg.batch_redundancy,
            udp_drop_percent: cfg.udp_drop_percent,
            grabbed: false,
            user_capturing: false,
            encrypt_udp: cfg.encrypt_udp,
            server_screen_size: None,
            fingerprint_dialog: None,
        }
    }

    /// The reconnection timeout in seconds: the field read as a `u16`, or
    /// 30 when it does not read as one.
    pub fn reconnect_timeout_secs_value(&self) -> (t: u16)
        ensures
            t == self.reconnect_timeout_secs_value_spec(),
    {
        match crate::text::parse_uint(self.reconnect_timeout_secs.as_str(), 65535) {
            Some(v) => v as u16,
            None => 30,
        }
    }

    /// The settings to save; the mouse sensitivity is given as its text.
    pub fn to_config(&self, sensitivity: String) -> (c: ClientConfig)
        ensures
            c.host@ == self.host@,
            c.port@ == self.port@,
            c.sensitivity@ == sensitivity@,
            c.natural_scroll == self.natural_scroll,
            c.capture_mode == self.capture_mode,
            c.hotkey@ == self.hotkey@,
            c.require_auth == self.require_auth,
            c.passphrase_hash@ == self.passphrase_hash@,
            c.keepalive_interval_ms == self.keepalive_interval_ms,
            c.reconnect_timeout_secs == self.reconnect_timeout_secs_value_spec(),
            c.blank_screen == self.blank_screen,
            c.show_hotkey_on_blank == self.show_hotkey_on_blank,
            c.mouse_batch_size == self.mouse_batch_size,
            c.batch_redundancy == self.batch_redundancy,
            c.udp_drop_percent == self.udp_drop_percent,
            c.encrypt_udp == self.encrypt_udp,
    {
        ClientConfig {
            host: self.host.clone(),
            port: self.port.clone(),
            sensitivity,
            natural_scroll: self.natural_scroll,
            capture_mode: self.capture_mode,
            hotkey: self.hotkey.clone(),
            require_auth: self.require_auth,
            passphrase_hash: self.passphrase_hash.clone(),
            keepalive_interval_ms: self.keepalive_interval_ms,
            reconnect_timeout_secs: self.reconnect_timeout_secs_value(),
            blank_screen: self.blank_screen,
            show_hotkey_on_blank: self.show_hotkey_on_blank,
            encrypt_udp: self.encrypt_udp,
            mouse_batch_size: self.mouse_batch_size,
            batch_redundancy: self.batch_redundancy,
            udp_drop_percent: self.udp_drop_percent,
        }
    }

    /// The reconnection timeout that the field gives, in seconds.
    pub open spec fn reconnect_timeout_secs_value_spec(&self) -> u16 {
        match crate::text::parse_unsigned(self.reconnect_timeout_secs@, 65535) {
            Some(v) => v as u16,
            None => 30,
        }
    }
}

/// A discovered server on `port` that has the address `ip`.
pub open spec fn server_matches(d: DiscoveredServer, port: Seq<char>, ip: IpAddress) -> bool {
    d.port@ == port && exists|k: int| 0 <= k < d.addrs@.len() && d.addrs@[k].0 == ip
}

/// The first discovered server that matches.
pub open spec fn first_matching(ds: Seq<DiscoveredServer>, port: Seq<char>, ip: IpAddress) -> Option<int>
    decreases ds.len(),
{
    if ds.len() == 0 {
        None
    } else if server_matches(ds[0], port, ip) {
        Some(0)
    } else {
        match first_matching(ds.drop_first(), port, ip) {
            Some(i) => Some(i + 1),
            None => None,
        }
    }
}

proof fn lemma_first_matching(ds: Seq<DiscoveredServer>, port: Seq<char>, ip: IpAddress, i: int)
    requires
        0 <= i <= ds.len(),
        forall|j: int| 0 <= j < i ==> !server_matches(ds[j], port, ip),
    ensures
        i < ds.len() && server_matches(ds[i], port, ip) ==> first_matching(ds, port, ip) == Some(i),
        i == ds.len() ==> first_matching(ds, port, ip) is None,
    decreases i,
{
    if i > 0 {
        lemma_first_matching(ds.drop_first(), port, ip, i - 1);
        assert forall|j: int| 0 <= j < i - 1 implies !server_matches(ds.drop_first()[j], port, ip) by {
            assert(ds.drop_first()[j] == ds[j + 1]);
        }
        if i < ds.len() {
            assert(ds.drop_first()[i - 1] == ds[i]);
        }
    }
}

/// The selection that the host and port fields give: the first discovered
/// server on the port with the host's address, or nothing.
pub open spec fn selection_for(
    ds: Seq<DiscoveredServer>,
    port: Seq<char>,
    host_ip: Option<IpAddress>,
    fullname: Option<String>,
    addrs: Seq<(IpAddress, u16)>,
) -> bool {
    match host_ip {
        Some(ip) => match first_matching(ds, port, ip) {
            Some(i) => fullname matches Some(f) && f@ == ds[i].fullname@ && addrs == ds[i].addrs@,
            None => fullname is None && addrs.len() == 0,
        },
        None => fullname is None && addrs.len() == 0,
    }
}

/// The selection follows the host and port fields.
pub open spec fn selection_follows(ds: Seq<DiscoveredServer>, port: Seq<char>, host_ip: Option<IpAddress>, t: State) -> bool {
    selection_for(ds, port, host_ip, t.selected_fullname, t.selected_addrs@)
}

fn copy_addrs(v: &Vec<(IpAddress, u16)>) -> (r: Vec<(IpAddress, u16)>)
    ensures
        r@ == v@,
{
    let mut r: Vec<(IpAddress, u16)> = Vec::new();
    let mut i: usize = 0;
    while i < v.len()
        invariant
            i <= v@.len(),
            r@ == v@.take(i as int),
        decreases v@.len() - i,
    {
        r.push(v[i]);
        proof {
            assert(v@.take(i + 1) =~= v@.take(i as int).push(v@[i as int]));
        }
        i += 1;
    }
    assert(v@.take(v@.len() as int) =~= v@);
    r
}

/// Whether a discovered server is on `port` with the address `ip`.
fn matches_server(d: &DiscoveredServer, port: &str, ip: &IpAddress) -> (r: bool)
    ensures
        r == server_matches(*d, port@, *ip),
{
    if !str_eq(d.port.as_str(), port) {
        return false;
    }
    let mut k: usize = 0;
    while k < d.addrs.len()
        invariant
            k <= d.addrs@.len(),
            d.port@ == port@,
            forall|j: int| 0 <= j < k ==> d.addrs@[j].0 != *ip,
        decreases d.addrs@.len() - k,
    {
        if ip_eq(&d.addrs[k].0, ip) {
            assert(d.addrs@[k as int].0 == *ip);
            return true;
        }
        k += 1;
    }
    false
}

/// The position of the first discovered server on `port` with the address
/// `ip`.
fn find_server(ds: &Vec<DiscoveredServer>, port: &str, ip: &IpAddress) -> (r: Option<usize>)
    ensures
        match r {
            Some(i) => first_matching(ds@, port@, *ip) == Some(i as int) && i < ds@.len(),
            None => first_matching(ds@, port@, *ip) is None,
        },
{
    let mut i: usize = 0;
    while i < ds.len()
        invariant
            i <= ds@.len(),
            forall|j: int| 0 <= j < i ==> !server_matches(ds@[j], port@, *ip),
        decreases ds@.len() - i,
    {
        if matches_server(&ds[i], port, ip) {
            proof {
                lemma_first_matching(ds@, port@, *ip, i as int);
            }
            return Some(i);
        }
        i += 1;
    }
    proof {
        lemma_first_matching(ds@, port@, *ip, i as int);
    }
    None
}

/// The selection for the host's address and the port.
fn select_for(ds: &Vec<DiscoveredServer>, port: &str, host_ip: Option<IpAddress>) -> (r: (
    Option<String>,
    Vec<(IpAddress, u16)>,
))
    ensures
        selection_for(ds@, port@, host_ip, r.0, r.1@),
{
    let found = match host_ip {
        Some(ip) => find_server(ds, port, &ip),
        None => None,
    };
    match found {
        Some(i) => {
            let f = ds[i].fullname.clone();
            let a = copy_addrs(&ds[i].addrs);
            (Some(f), a)
        },
        None => (None, Vec::new()),
    }
}

impl State {
    /// Select the discovered server that the host and port fields name.
    fn sync_selection(&mut self)
        ensures
            selection_follows(old(self).discovered@, old(self).port@, old(self).host_ip, *final(self)),
            *final(self) == (State {
                selected_fullname: final(self).selected_fullname,
                selected_addrs: final(self).selected_addrs,
                ..*old(self)
            }),
    {
        let (f, a) = select_for(&self.discovered, self.port.as_str(), self.host_ip);
        self.selected_fullname = f;
        self.selected_addrs = a;
    }

    /// Release everything held: send the releases when connected, and
    /// forget the held keys and buttons.
    fn release_all_held(&mut self) -> (actions: Vec<ClientAction>)
        ensures
            actions@ == (if old(self).has_sender {
                release_events(old(self).pressed_keys@, old(self).pressed_mouse_buttons@)
            } else {
                Seq::empty()
            }),
            final(self).pressed_keys@.len() == 0,
            final(self).pressed_mouse_buttons@.len() == 0,
            *final(self) == (State {
                pressed_keys: final(self).pressed_keys,
                pressed_mouse_buttons: final(self).pressed_mouse_buttons,
                ..*old(self)
            }),
    {
        let mut actions: Vec<ClientAction> = Vec::new();
        if self.has_sender {
            let mut i: usize = 0;
            while i < self.pressed_keys.len()
                invariant
                    i <= self.pressed_keys@.len(),
                    *self == *old(self),
                    actions@ == self.pressed_keys@.take(i as int).map_values(
                        |c: u16| ClientAction::Send(Event::KeyUp(c, 0)),
                    ),
                decreases self.pressed_keys@.len() - i,
            {
                actions.push(ClientAction::Send(Event::KeyUp(self.pressed_keys[i], 0)));
                proof {
                    assert(self.pressed_keys@.take(i + 1) =~= self.pressed_keys@.take(i as int).push(
                        self.pressed_keys@[i as int],
                    ));
                }
                i += 1;
            }
            let ghost ka = actions@;
            let mut j: usize = 0;
            while j < self.pressed_mouse_buttons.len()
                invariant
                    j <= self.pressed_mouse_buttons@.len(),
                    *self == *old(self),
                    actions@ == ka + self.pressed_mouse_buttons@.take(j as int).map_values(
                        |b: u8| ClientAction::Send(Event::MouseButton { button: b, pressed: false }),
                    ),
                decreases self.pressed_mouse_buttons@.len() - j,
            {
                actions.push(
                    ClientAction::Send(Event::MouseButton { button: self.pressed_mouse_buttons[j], pressed: false }),
                );
                proof {
                    assert(self.pressed_mouse_buttons@.take(j + 1) =~= self.pressed_mouse_buttons@.take(
                        j as int,
                    ).push(self.pressed_mouse_buttons@[j as int]));
                }
                j += 1;
            }
            proof {
                assert(self.pressed_keys@.take(self.pressed_keys@.len() as int) =~= self.pressed_keys@);
                assert(self.pressed_mouse_buttons@.take(self.pressed_mouse_buttons@.len() as int)
                    =~= self.pressed_mouse_buttons@);
                assert(actions@ =~= release_events(old(self).pressed_keys@, old(self).pressed_mouse_buttons@));
            }
        }
        self.pressed_keys = Vec::new();
        self.pressed_mouse_buttons = Vec::new();
        actions
    }

    /// The repeats sent on a repeat tick: each held key and button once,
    /// when connected.
    fn repeat_held(&self) -> (actions: Vec<ClientAction>)
        ensures
            actions@ == (if self.has_sender {
                repeat_events(self.pressed_keys@, self.pressed_mouse_buttons@)
            } else {
                Seq::empty()
            }),
    {
        let mut actions: Vec<ClientAction> = Vec::new();
        if self.has_sender {
            let mut i: usize = 0;
            while i < self.pressed_keys.len()
                invariant
                    i <= self.pressed_keys@.len(),
                    actions@ == self.pressed_keys@.take(i as int).map_values(
                        |c: u16| ClientAction::Send(Event::KeyRepeat(c, 0)),
                    ),
                decreases self.pressed_keys@.len() - i,
            {
                actions.push(ClientAction::Send(Event::KeyRepeat(self.pressed_keys[i], 0)));
                proof {
                    assert(self.pressed_keys@.take(i + 1) =~= self.pressed_keys@.take(i as int).push(
                        self.pressed_keys@[i as int],
                    ));
                }
                i += 1;
            }
            let ghost ka = actions@;
            let mut j: usize = 0;
            while j < self.pressed_mouse_buttons.len()
                invariant
                    j <= self.pressed_mouse_buttons@.len(),
                    actions@ == ka + self.pressed_mouse_buttons@.take(j as int).map_values(
                        |b: u8| ClientAction::Send(Event::MouseButtonRepeat(b)),
                    ),
                decreases self.pressed_mouse_buttons@.len() - j,
            {
                actions.push(ClientAction::Send(Event::MouseButtonRepeat(self.pressed_mouse_buttons[j])));
                proof {
                    assert(self.pressed_mouse_buttons@.take(j + 1) =~= self.pressed_mouse_buttons@.take(
                        j as int,
                    ).push(self.pressed_mouse_buttons@[j as int]));
                }
                j += 1;
            }
            proof {
                assert(self.pressed_keys@.take(self.pressed_keys@.len() as int) =~= self.pressed_keys@);
                assert(self.pressed_mouse_buttons@.take(self.pressed_mouse_buttons@.len() as int)
                    =~= self.pressed_mouse_buttons@);
                assert(actions@ =~= repeat_events(self.pressed_keys@, self.pressed_mouse_buttons@));
            }
        }
        actions
    }

    /// A key went down or up while captured: a new press or any release is
    /// sent (when connected) and the held keys follow.
    fn key_input(&mut self, code: u16, pressed: bool) -> (actions: Vec<ClientAction>)
        requires
            old(self).wf(),
        ensures
            final(self).wf(),
            key_step(*old(self), code, pressed, *final(self), actions@),
    {
        let ghost s0 = *self;
        let mut actions: Vec<ClientAction> = Vec::new();
        let wire: Option<Event> = if pressed {
            if press_key(&mut self.pressed_keys, code) {
                Some(Event::KeyDown(code, 0))
            } else {
                None
            }
        } else {
            release_key(&mut self.pressed_keys, code);
            Some(Event::KeyUp(code, 0))
        };
        if let Some(e) = wire {
            if self.has_sender {
                actions.push(ClientAction::Send(e));
            }
        }
        proof {
            assert(*self == (State { pressed_keys: self.pressed_keys, ..s0 }));
            assert(actions@ =~= (match key_wire(s0.pressed_keys@, code, pressed) {
                Some(e) => if s0.has_sender { seq![ClientAction::Send(e)] } else { Seq::empty() },
                None => Seq::empty(),
            }));
        }
        actions
    }

    /// A mouse button went down or up while captured.
    fn button_input(&mut self, b: u8, pressed: bool) -> (actions: Vec<ClientAction>)
        requires
            old(self).wf(),
        ensures
            final(self).wf(),
            button_step(*old(self), b, pressed, *final(self), actions@),
    {
        let ghost s0 = *self;
        let mut actions: Vec<ClientAction> = Vec::new();
        let wire: Option<Event> = if pressed {
            if press_button(&mut self.pressed_mouse_buttons, b) {
                Some(Event::MouseButton { button: b, pressed: true })
            } else {
                None
            }
        } else {
            release_button(&mut self.pressed_mouse_buttons, b);
            Some(Event::MouseButton { button: b, pressed: false })
        };
        if let Some(e) = wire {
            if self.has_sender {
                actions.push(ClientAction::Send(e));
            }
        }
        proof {
            assert(*self == (State { pressed_mouse_buttons: self.pressed_mouse_buttons, ..s0 }));
            assert(actions@ =~= (match button_wire(s0.pressed_mouse_buttons@, b, pressed) {
                Some(e) => if s0.has_sender { seq![ClientAction::Send(e)] } else { Seq::empty() },
                None => Seq::empty(),
            }));
        }
        actions
    }
}

// ---------------------------------------------------------------------------
// Discovered servers, kept in order of their names
// ---------------------------------------------------------------------------

/// Ordered by name, equal names in the order they were found.
pub open spec fn sorted_by_name(ds: Seq<DiscoveredServer>) -> bool {
    forall|i: int, j: int| 0 <= i < j < ds.len() ==> !chars_lt(ds[j].name@, ds[i].name@)
}

/// Where a server named `n` goes: before the first server whose name
/// orders after it.
pub open spec fn name_position(ds: Seq<DiscoveredServer>, n: Seq<char>) -> nat
    decreases ds.len(),
{
    if ds.len() == 0 {
        0
    } else if chars_lt(n, ds[0].name@) {
        0
    } else {
        1 + name_position(ds.drop_first(), n)
    }
}

/// A server with another full name.
pub open spec fn other_fullname(f: Seq<char>) -> spec_fn(DiscoveredServer) -> bool {
    |d: DiscoveredServer| d.fullname@ != f
}

/// The servers other than the one with this full name.
pub open spec fn without_fullname(ds: Seq<DiscoveredServer>, f: Seq<char>) -> Seq<DiscoveredServer> {
    ds.filter(other_fullname(f))
}

/// The servers after `d` was found: any earlier entry of it replaced, and
/// it placed by its name.
pub open spec fn after_found(ds: Seq<DiscoveredServer>, d: DiscoveredServer) -> Seq<DiscoveredServer> {
    let kept = without_fullname(ds, d.fullname@);
    kept.insert(name_position(kept, d.name@) as int, d)
}

proof fn lemma_name_position(ds: Seq<DiscoveredServer>, n: Seq<char>, i: int)
    requires
        0 <= i <= ds.len(),
        forall|j: int| 0 <= j < i ==> !chars_lt(n, #[trigger] ds[j].name@),
    ensures
        i < ds.len() && chars_lt(n, ds[i].name@) ==> name_position(ds, n) == i,
        i == ds.len() ==> name_position(ds, n) == i,
        name_position(ds, n) <= ds.len(),
    decreases i,
{
    if i > 0 {
        lemma_name_position(ds.drop_first(), n, i - 1);
        assert forall|j: int| 0 <= j < i - 1 implies !chars_lt(n, #[trigger] ds.drop_first()[j].name@) by {
            assert(ds.drop_first()[j] == ds[j + 1]);
        }
        if i < ds.len() {
            assert(ds.drop_first()[i - 1] == ds[i]);
        }
    } else {
        lemma_name_position_bound(ds, n);
    }
}

proof fn lemma_name_position_bound(ds: Seq<DiscoveredServer>, n: Seq<char>)
    ensures
        name_position(ds, n) <= ds.len(),
        forall|j: int| 0 <= j < name_position(ds, n) ==> !chars_lt(n, #[trigger] ds[j].name@),
        name_position(ds, n) < ds.len() ==> chars_lt(n, ds[name_position(ds, n) as int].name@),
    decreases ds.len(),
{
    if ds.len() > 0 && !chars_lt(n, ds[0].name@) {
        let t = ds.drop_first();
        lemma_name_position_bound(t, n);
        assert forall|j: int| 0 <= j < name_position(ds, n) implies !chars_lt(n, #[trigger] ds[j].name@) by {
            if j > 0 {
                assert(ds[j] == t[j - 1]);
            }
        }
        if name_position(ds, n) < ds.len() {
            assert(ds[name_position(ds, n) as int] == t[name_position(t, n) as int]);
        }
    }
}

/// Drop the servers with this full name.
fn remove_fullname(ds: &mut Vec<DiscoveredServer>, f: &str)
    ensures
        final(ds)@ == without_fullname(old(ds)@, f@),
{
    let ghost orig = ds@;
    let ghost p = other_fullname(f@);
    let mut i: usize = 0;
    let ghost mut j: int = 0;
    proof {
        reveal(Seq::filter);
        assert(orig.take(0).filter(p) =~= Seq::<DiscoveredServer>::empty());
        assert(orig.skip(0) =~= orig);
        assert(ds@ =~= orig.take(0).filter(p) + orig.skip(0));
    }
    while i < ds.len()
        invariant
            0 <= j <= orig.len(),
            i == orig.take(j).filter(p).len(),
            ds@ == orig.take(j).filter(p) + orig.skip(j),
            ds@.len() - i == orig.len() - j,
            p == other_fullname(f@),
        decreases orig.len() - j,
    {
        let ghost before = ds@;
        proof {
            assert(ds@[i as int] == orig[j]);
            assert(orig.take(j + 1) =~= orig.take(j).push(orig[j]));
            orig.take(j).lemma_filter_push(orig[j], p);
        }
        if str_eq(ds[i].fullname.as_str(), f) {
            ds.remove(i);
            proof {
                assert(ds@ =~= orig.take(j + 1).filter(p) + orig.skip(j + 1));
                j = j + 1;
            }
        } else {
            proof {
                assert(ds@ =~= orig.take(j + 1).filter(p) + orig.skip(j + 1));
                j = j + 1;
            }
            i += 1;
        }
    }
    proof {
        assert(j == orig.len());
        assert(orig.take(j) =~= orig);
        assert(orig.skip(j) =~= Seq::<DiscoveredServer>::empty());
        assert(ds@ =~= orig.filter(p));
    }
}

/// Record a found server: replace any earlier entry of it and place it by
/// its name.
fn found_server(ds: &mut Vec<DiscoveredServer>, d: DiscoveredServer)
    ensures
        final(ds)@ == after_found(old(ds)@, d),
{
    remove_fullname(ds, d.fullname.as_str());
    let ghost kept = ds@;
    let mut pos: usize = 0;
    while pos < ds.len() && !crate::text::str_lt(d.name.as_str(), ds[pos].name.as_str())
        invariant
            pos <= ds@.len(),
            ds@ == kept,
            forall|j: int| 0 <= j < pos ==> !chars_lt(d.name@, #[trigger] ds@[j].name@),
        decreases ds@.len() - pos,
    {
        pos += 1;
    }
    proof {
        lemma_name_position(kept, d.name@, pos as int);
    }
    ds.insert(pos, d);
}

/// Keeping the servers with other full names keeps them ordered by name.
pub proof fn lemma_removal_keeps_order(ds: Seq<DiscoveredServer>, f: Seq<char>)
    requires
        sorted_by_name(ds),
    ensures
        sorted_by_name(without_fullname(ds, f)),
    decreases ds.len(),
{
    let p = other_fullname(f);
    if ds.len() > 0 {
        let d = ds.drop_last();
        assert(sorted_by_name(d)) by {
            assert forall|i: int, j: int| 0 <= i < j < d.len() implies !chars_lt(d[j].name@, d[i].name@) by {
                assert(d[i] == ds[i] && d[j] == ds[j]);
            }
        }
        lemma_removal_keeps_order(d, f);
        d.lemma_filter_push(ds.last(), p);
        assert(ds =~= d.push(ds.last()));
        let k = d.filter(p);
        if p(ds.last()) {
            assert forall|i: int| 0 <= i < k.len() implies !chars_lt(ds.last().name@, #[trigger] k[i].name@) by {
                assert(k.contains(k[i]));
                d.lemma_filter_contains_rev(p, k[i]);
                let m = choose|m: int| 0 <= m < d.len() && d[m] == k[i];
                assert(ds[m] == d[m]);
            }
            let n = k.push(ds.last());
            assert forall|i: int, j: int| 0 <= i < j < n.len() implies !chars_lt(n[j].name@, n[i].name@) by {
                if j == n.len() - 1 {
                    assert(n[i] == k[i]);
                    assert(n[j] == ds.last());
                } else {
                    assert(n[i] == k[i] && n[j] == k[j]);
                }
            }
        }
    } else {
        reveal(Seq::filter);
    }
}

/// A found server placed by its name keeps the list ordered by name.
pub proof fn lemma_found_keeps_order(ds: Seq<DiscoveredServer>, d: DiscoveredServer)
    requires
        sorted_by_name(ds),
    ensures
        sorted_by_name(after_found(ds, d)),
{
    let kept = without_fullname(ds, d.fullname@);
    lemma_removal_keeps_order(ds, d.fullname@);
    lemma_name_position_bound(kept, d.name@);
    let pos = name_position(kept, d.name@) as int;
    let n = kept.insert(pos, d);
    assert forall|i: int, j: int| 0 <= i < j < n.len() implies !chars_lt(n[j].name@, n[i].name@) by {
        if j < pos {
            assert(n[i] == kept[i] && n[j] == kept[j]);
        } else if j == pos {
            assert(n[i] == kept[i]);
        } else if i == pos {
            assert(n[j] == kept[j - 1]);
            // d orders before kept[pos], which is no later than kept[j - 1]
            assert(chars_lt(d.name@, kept[pos].name@));
            if chars_lt(kept[j - 1].name@, d.name@) {
                crate::text::lemma_chars_lt_transitive(kept[j - 1].name@, d.name@, kept[pos].name@);
                if j - 1 > pos {
                    assert(!chars_lt(kept[j - 1].name@, kept[pos].name@));
                } else {
                    crate::text::lemma_chars_lt_irreflexive(kept[pos].name@);
                }
            }
        } else if i < pos {
            assert(n[i] == kept[i] && n[j] == kept[j - 1]);
        } else {
            assert(n[i] == kept[i - 1] && n[j] == kept[j - 1]);
        }
    }
}

// ---------------------------------------------------------------------------
// Handling a message
// ---------------------------------------------------------------------------

/// A key going down or up while captured: the held keys follow and a new
/// press or any release is sent when connected.
pub open spec fn key_step(s: State, code: u16, pressed: bool, t: State, a: Seq<ClientAction>) -> bool {
    &&& t == (State { pressed_keys: t.pressed_keys, ..s })
    &&& t.pressed_keys@ == (if pressed {
        if s.pressed_keys@.contains(code) {
            s.pressed_keys@
        } else {
            s.pressed_keys@.push(code)
        }
    } else {
        s.pressed_keys@.filter(not_value::<u16>(code))
    })
    &&& a == (match key_wire(s.pressed_keys@, code, pressed) {
        Some(e) => if s.has_sender { seq![ClientAction::Send(e)] } else { Seq::empty() },
        None => Seq::empty(),
    })
}

/// A mouse button going down or up while captured.
pub open spec fn button_step(s: State, b: u8, pressed: bool, t: State, a: Seq<ClientAction>) -> bool {
    &&& t == (State { pressed_mouse_buttons: t.pressed_mouse_buttons, ..s })
    &&& t.pressed_mouse_buttons@ == (if pressed {
        if s.pressed_mouse_buttons@.contains(b) {
            s.pressed_mouse_buttons@
        } else {
            s.pressed_mouse_buttons@.push(b)
        }
    } else {
        s.pressed_mouse_buttons@.filter(not_value::<u8>(b))
    })
    &&& a == (match button_wire(s.pressed_mouse_buttons@, b, pressed) {
        Some(e) => if s.has_sender { seq![ClientAction::Send(e)] } else { Seq::empty() },
        None => Seq::empty(),
    })
}

/// The releases of everything held, sent when connected.
pub open spec fn release_all(s: State) -> Seq<ClientAction> {
    if s.has_sender {
        release_events(s.pressed_keys@, s.pressed_mouse_buttons@)
    } else {
        Seq::empty()
    }
}

/// Nothing is held.
pub open spec fn nothing_held(t: State) -> bool {
    t.pressed_keys@.len() == 0 && t.pressed_mouse_buttons@.len() == 0
}

/// Sent when connected.
pub open spec fn when_sending(s: State, a: Seq<ClientAction>) -> Seq<ClientAction> {
    if s.has_sender {
        a
    } else {
        Seq::empty()
    }
}

/// The state `t` and the actions `a` that message `m` gives in state `s`.
pub open spec fn client_next(s: State, m: Message, t: State, a: Seq<ClientAction>) -> bool {
    match m {
        Message::SelectPage(p) => {
            &&& a.len() == 0
            &&& t == (State { page: p, passphrase: t.passphrase, pending_passphrase: t.pending_passphrase, ..s })
            &&& if s.page == Page::Security && p != Page::Security {
                &&& t.passphrase@ == (if s.pending_passphrase@.len() > 0 {
                    s.pending_passphrase@
                } else {
                    s.passphrase@
                })
                &&& t.pending_passphrase@.len() == 0
            } else {
                t.passphrase == s.passphrase && t.pending_passphrase == s.pending_passphrase
            }
        },
        Message::HostChanged { host, ip } => {
            &&& a.len() == 0
            &&& t == (State {
                host,
                host_ip: ip,
                selected_fullname: t.selected_fullname,
                selected_addrs: t.selected_addrs,
                ..s
            })
            &&& selection_for(s.discovered@, s.port@, ip, t.selected_fullname, t.selected_addrs@)
        },
        Message::PortChanged(port) => {
            &&& a.len() == 0
            &&& if short_digits(port@) {
                &&& t == (State {
                    port,
                    selected_fullname: t.selected_fullname,
                    selected_addrs: t.selected_addrs,
                    ..s
                })
                &&& selection_for(s.discovered@, port@, s.host_ip, t.selected_fullname, t.selected_addrs@)
            } else {
                t == s
            }
        },
        Message::Connect => a.len() == 0 && t == (State { last_error: None, connecting: true, ..s }),
        Message::ConnectSuccess { phc, screen_size } => {
            &&& a == connect_actions(s)
            &&& t == (State {
                passphrase_hash: match phc {
                    Some(p) => p,
                    None => s.passphrase_hash,
                },
                server_screen_size: screen_size,
                has_sender: true,
                connected: true,
                connecting: false,
                ..s
            })
        },
        Message::ConnectFailed(e) => a.len() == 0 && t == (State {
            last_error: Some(e),
            connecting: false,
            ..s
        }),
        Message::FingerprintMismatch { host, port, new_fingerprint } => a.len() == 0 && t == (State {
            connecting: false,
            fingerprint_dialog: Some(FingerprintDialogState { host, port, new_fingerprint, show_fingerprint: false }),
            ..s
        }),
        Message::FingerprintDialogToggleFingerprint => a.len() == 0 && t == (State {
            fingerprint_dialog: match s.fingerprint_dialog {
                Some(d) => Some(FingerprintDialogState { show_fingerprint: !d.show_fingerprint, ..d }),
                None => None,
            },
            ..s
        }),
        Message::FingerprintDialogCancel => a.len() == 0 && t == (State { fingerprint_dialog: None, ..s }),
        Message::FingerprintDialogAllowOnce => a.len() == 0 && t == (State {
            fingerprint_dialog: None,
            connecting: true,
            last_error: None,
            ..s
        }),
        Message::FingerprintDialogTrust => a.len() == 0 && t == (State {
            fingerprint_dialog: None,
            connecting: true,
            last_error: None,
            ..s
        }),
        Message::Disconnect => {
            &&& a == seq![ClientAction::DropSender, ClientAction::ResetCursor] + (if s.has_reconnect_cancel {
                seq![ClientAction::CancelReconnect]
            } else {
                Seq::empty()
            })
            &&& t == (State {
                connected: false,
                connecting: false,
                has_sender: false,
                last_error: None,
                pressed_keys: t.pressed_keys,
                pressed_mouse_buttons: t.pressed_mouse_buttons,
                reconnecting: false,
                reconnect_generation: (s.reconnect_generation + 1) as u64,
                has_reconnect_cancel: false,
                grabbed: false,
                user_capturing: false,
                ..s
            })
            &&& nothing_held(t)
        },
        Message::ConnectionLost => if s.connected {
            &&& a == seq![ClientAction::DropSender, ClientAction::ResetCursor]
            &&& t == (State {
                connected: false,
                connecting: false,
                has_sender: false,
                pressed_keys: t.pressed_keys,
                pressed_mouse_buttons: t.pressed_mouse_buttons,
                reconnecting: true,
                reconnect_generation: (s.reconnect_generation + 1) as u64,
                has_reconnect_cancel: false,
                grabbed: false,
                user_capturing: false,
                ..s
            })
            &&& nothing_held(t)
        } else {
            a.len() == 0 && t == s
        },
        Message::ReconnectSuccess { generation, screen_size } => if s.reconnecting && s.reconnect_generation
            == generation {
            &&& a == connect_actions(s)
            &&& t == (State {
                server_screen_size: screen_size,
                has_sender: true,
                connected: true,
                reconnecting: false,
                has_reconnect_cancel: false,
                grabbed: false,
                user_capturing: false,
                last_error: None,
                ..s
            })
        } else {
            a.len() == 0 && t == s
        },
        Message::ReconnectFailed(generation) => {
            &&& a.len() == 0
            &&& if s.reconnecting && s.reconnect_generation == generation {
                &&& t == (State {
                    reconnecting: false,
                    has_reconnect_cancel: false,
                    grabbed: false,
                    user_capturing: false,
                    last_error: t.last_error,
                    ..s
                })
                &&& t.last_error matches Some(e) && e@ == "Server closed the connection."@
            } else {
                t == s
            }
        },
        Message::NaturalScrollToggled(v) => a.len() == 0 && t == (State { natural_scroll: v, ..s }),
        Message::CaptureModeChanged { mode, wayland_grabbed } => {
            let pre: Seq<ClientAction> = if s.capture_mode == CaptureMode::Fullscreen && mode != CaptureMode::Fullscreen
                && wayland_grabbed {
                seq![ClientAction::ToggleWaylandGrab]
            } else {
                Seq::empty()
            };
            let ctl: Seq<ClientAction> = when_sending(s, seq![control(capture_mode_msg(mode))]);
            let rep: Seq<ClientAction> = if s.connected {
                seq![ClientAction::ReportMouseScale]
            } else {
                Seq::empty()
            };
            &&& a == pre + release_all(s) + ctl + rep
            &&& t == (State {
                grabbed: false,
                capture_mode: mode,
                pressed_keys: t.pressed_keys,
                pressed_mouse_buttons: t.pressed_mouse_buttons,
                ..s
            })
            &&& nothing_held(t)
        },
        Message::RequireAuthToggled(v) => a.len() == 0 && t == (State { require_auth: v, ..s }),
        Message::PassphraseChanged(p) => a.len() == 0 && t == (State { pending_passphrase: p, ..s }),
        Message::SelectDiscovered(i) => {
            &&& a.len() == 0
            &&& if i < s.discovered@.len() {
                let d = s.discovered@[i as int];
                &&& t == (State {
                    host: t.host,
                    host_ip: if d.addrs@.len() > 0 {
                        Some(d.addrs@[0].0)
                    } else {
                        None
                    },
                    port: t.port,
                    selected_addrs: t.selected_addrs,
                    selected_fullname: t.selected_fullname,
                    ..s
                })
                &&& t.host@ == (match d.first_ip_text {
                    Some(x) => x@,
                    None => d.host@,
                })
                &&& t.port@ == d.port@
                &&& t.selected_addrs@ == d.addrs@
                &&& t.selected_fullname matches Some(f) && f@ == d.fullname@
            } else {
                t == s
            }
        },
        Message::DiscoveryFound(d) => {
            &&& a.len() == 0
            &&& t == (State {
                discovered: t.discovered,
                selected_fullname: t.selected_fullname,
                selected_addrs: t.selected_addrs,
                ..s
            })
            &&& t.discovered@ == after_found(s.discovered@, d)
            &&& selection_for(t.discovered@, s.port@, s.host_ip, t.selected_fullname, t.selected_addrs@)
        },
        Message::DiscoveryLost(f) => {
            &&& a.len() == 0
            &&& t == (State {
                discovered: t.discovered,
                selected_fullname: t.selected_fullname,
                selected_addrs: t.selected_addrs,
                ..s
            })
            &&& t.discovered@ == without_fullname(s.discovered@, f@)
            &&& selection_for(t.discovered@, s.port@, s.host_ip, t.selected_fullname, t.selected_addrs@)
        },
        Message::OpenHotkeyDialog => {
            &&& a.len() == 0
            &&& t == (State { hotkey_dialog_open: true, pending_hotkey: t.pending_hotkey, ..s })
            &&& t.pending_hotkey@.len() == 0
        },
        Message::CloseHotkeyDialog => {
            &&& a.len() == 0
            &&& t == (State { hotkey_dialog_open: false, pending_hotkey: t.pending_hotkey, ..s })
            &&& t.pending_hotkey@.len() == 0
        },
        Message::ConfirmHotkey => {
            &&& a.len() == 0
            &&& t == (State {
                hotkey: t.hotkey,
                hotkey_dialog_open: false,
                pending_hotkey: t.pending_hotkey,
                ..s
            })
            &&& t.pending_hotkey@.len() == 0
            &&& t.hotkey@ == (if s.pending_hotkey@.len() > 0 {
                s.pending_hotkey@
            } else {
                s.hotkey@
            })
        },
        Message::HotkeyInput { escape, chord } => {
            &&& a.len() == 0
            &&& if escape {
                &&& t == (State { hotkey_dialog_open: false, pending_hotkey: t.pending_hotkey, ..s })
                &&& t.pending_hotkey@.len() == 0
            } else {
                match chord {
                    Some(c) => t == (State { pending_hotkey: c, ..s }),
                    None => t == s,
                }
            }
        },
        Message::CaptureHotkey => if s.capture_mode == CaptureMode::Fullscreen {
            a == seq![ClientAction::ToggleWaylandGrab] && t == s
        } else {
            let uc = !s.user_capturing;
            &&& t == (State {
                user_capturing: uc,
                grabbed: uc,
                pressed_keys: t.pressed_keys,
                pressed_mouse_buttons: t.pressed_mouse_buttons,
                ..s
            })
            &&& if uc {
                &&& a.len() == 0
                &&& t.pressed_keys == s.pressed_keys
                &&& t.pressed_mouse_buttons == s.pressed_mouse_buttons
            } else {
                a == release_all(s) && nothing_held(t)
            }
        },
        Message::WaylandGrabToggled(g) => a.len() == 0 && t == (State {
            user_capturing: g,
            grabbed: g,
            ..s
        }),
        Message::Capture { input, wayland_grabbed } => {
            let forward = match s.capture_mode {
                CaptureMode::Window => s.grabbed,
                CaptureMode::Fullscreen => wayland_grabbed,
            };
            if !forward {
                a.len() == 0 && t == s
            } else {
                match input {
                    CaptureInput::Key { code, pressed } => key_step(s, code, pressed, t, a),
                    CaptureInput::Button { button, pressed } => button_step(s, button, pressed, t, a),
                    CaptureInput::Wire(e) => t == s && a == when_sending(s, seq![ClientAction::Send(e)]),
                    CaptureInput::Other => a.len() == 0 && t == s,
                }
            }
        },
        Message::HotkeyEvent(ev) => match ev {
            InputEvent::HotkeyToggled { grabbed } => {
                &&& t == (State {
                    grabbed,
                    user_capturing: grabbed,
                    pressed_keys: t.pressed_keys,
                    pressed_mouse_buttons: t.pressed_mouse_buttons,
                    ..s
                })
                &&& if grabbed {
                    &&& a.len() == 0
                    &&& t.pressed_keys == s.pressed_keys
                    &&& t.pressed_mouse_buttons == s.pressed_mouse_buttons
                } else {
                    a == release_all(s) && nothing_held(t)
                }
            },
            InputEvent::BackendError(msg) => t == s && a == seq![ClientAction::ReportError(msg)],
            InputEvent::KeyPress { keycode } => key_step(s, evdev_of_x11(keycode), true, t, a),
            InputEvent::KeyRelease { keycode } => key_step(s, evdev_of_x11(keycode), false, t, a),
            InputEvent::MouseMove { dx, dy } => t == s && a == when_sending(
                s,
                seq![ClientAction::SendScaledMove { dx, dy }],
            ),
            InputEvent::Wheel { dx, dy } => t == s && a == when_sending(
                s,
                seq![
                    ClientAction::Send(
                        Event::Wheel {
                            dx,
                            dy: if s.natural_scroll {
                                dy
                            } else {
                                (-dy) as i8
                            },
                            seq: 0,
                        },
                    ),
                ],
            ),
            InputEvent::MouseButton { button, pressed } => button_step(s, button, pressed, t, a),
        },
        Message::KeyRepeatTick => t == s && a == when_sending(
            s,
            repeat_events(s.pressed_keys@, s.pressed_mouse_buttons@),
        ),
        Message::KeepaliveTick => t == s && a == when_sending(s, seq![ClientAction::Send(Event::Keepalive)]),
        Message::KeyRepeatIntervalChanged(v) => a.len() == 0 && t == (State {
            key_repeat_interval_ms: v,
            ..s
        }),
        Message::KeepaliveIntervalChanged(v) => a.len() == 0 && t == (State {
            keepalive_interval_ms: (v / 10 * 10) as u16,
            ..s
        }),
        Message::ReconnectTimeoutChanged(x) => a.len() == 0 && if short_digits(x@) {
            t == (State { reconnect_timeout_secs: x, ..s })
        } else {
            t == s
        },
        Message::BlankScreenToggled(v) => a.len() == 0 && t == (State { blank_screen: v, ..s }),
        Message::ShowHotkeyOnBlankToggled(v) => a.len() == 0 && t == (State {
            show_hotkey_on_blank: v,
            ..s
        }),
        Message::EncryptUdpToggled(v) => a.len() == 0 && t == (State { encrypt_udp: v, ..s }),
        Message::MouseBatchSizeChanged(v) => {
            &&& t == (State { mouse_batch_size: v, ..s })
            &&& a == when_sending(
                s,
                seq![
                    ClientAction::SetMouseBatchSize(v),
                    control(ControlMsg::SetBatchConfig { max_batch: v, batch_redundancy: s.batch_redundancy }),
                ],
            )
        },
        Message::BatchRedundancyChanged(v) => {
            &&& t == (State { batch_redundancy: v, ..s })
            &&& a == when_sending(
                s,
                seq![
                    ClientAction::SetBatchRedundancy(v),
                    control(ControlMsg::SetBatchConfig { max_batch: s.mouse_batch_size, batch_redundancy: v }),
                ],
            )
        },
        Message::UdpDropPercentChanged(v) => {
            &&& t == (State { udp_drop_percent: v, ..s })
            &&& a == when_sending(s, seq![ClientAction::SetUdpDropPercent(v)])
        },
        Message::ReconnectCancelSet => a.len() == 0 && t == (State { has_reconnect_cancel: true, ..s }),
    }
}

/// The mode-dependent control message that announces the capture mode.
pub open spec fn capture_mode_msg(m: CaptureMode) -> ControlMsg {
    ControlMsg::SetCaptureMode { window_mode: m == CaptureMode::Window }
}

/// What a new connection (or reconnection) asks for: report the mouse
/// scale, announce the capture mode and the batch settings, keep the sender.
pub open spec fn connect_actions(s: State) -> Seq<ClientAction> {
    seq![
        ClientAction::ReportMouseScale,
        control(capture_mode_msg(s.capture_mode)),
        control(batch_config(s)),
        ClientAction::KeepSender,
    ]
}

/// The message the client may take: the reconnection generation has room
/// to count, and a backend wheel step can be negated.
pub open spec fn client_can_take(s: State, m: Message) -> bool {
    &&& s.wf()
    &&& s.reconnect_generation < u64::MAX
    &&& (m matches Message::HotkeyEvent(InputEvent::Wheel { dy, .. }) ==> dy != -128i8)
}

impl State {
    /// Take one message: update the state and say what to send and do.
    pub fn update(&mut self, msg: Message) -> (actions: Vec<ClientAction>)
        requires
            client_can_take(*old(self), msg),
        ensures
            final(self).wf(),
            client_next(*old(self), msg, *final(self), actions@),
    {
        match msg {
            Message::SelectPage(p) => self.on_select_page(p),
            Message::HostChanged { host, ip } => self.on_host_changed(host, ip),
            Message::PortChanged(port) => self.on_port_changed(port),
            Message::Connect => self.on_connect(),
            Message::ConnectSuccess { phc, screen_size } => self.on_connect_success(phc, screen_size),
            Message::ConnectFailed(e) => self.on_connect_failed(e),
            Message::FingerprintMismatch { host, port, new_fingerprint } => self.on_fingerprint_mismatch(host, port, new_fingerprint),
            Message::FingerprintDialogToggleFingerprint => self.on_fingerprint_dialog_toggle_fingerprint(),
            Message::FingerprintDialogCancel => self.on_fingerprint_dialog_cancel(),
            Message::FingerprintDialogAllowOnce => self.on_fingerprint_accepted(),
            Message::FingerprintDialogTrust => self.on_fingerprint_accepted(),
            Message::Disconnect => self.on_disconnect(),
            Message::ConnectionLost => self.on_connection_lost(),
            Message::ReconnectSuccess { generation, screen_size } => self.on_reconnect_success(generation, screen_size),
            Message::ReconnectFailed(generation) => self.on_reconnect_failed(generation),
            Message::NaturalScrollToggled(v) => self.on_natural_scroll_toggled(v),
            Message::CaptureModeChanged { mode, wayland_grabbed } => self.on_capture_mode_changed(mode, wayland_grabbed),
            Message::RequireAuthToggled(v) => self.on_require_auth_toggled(v),
            Message::PassphraseChanged(p) => self.on_passphrase_changed(p),
            Message::SelectDiscovered(i) => self.on_select_discovered(i),
            Message::DiscoveryFound(d) => self.on_discovery_found(d),
            Message::DiscoveryLost(f) => self.on_discovery_lost(f),
            Message::OpenHotkeyDialog => self.on_open_hotkey_dialog(),
            Message::CloseHotkeyDialog => self.on_close_hotkey_dialog(),
            Message::ConfirmHotkey => self.on_confirm_hotkey(),
            Message::HotkeyInput { escape, chord } => self.on_hotkey_input(escape, chord),
            Message::CaptureHotkey => self.on_capture_hotkey(),
            Message::WaylandGrabToggled(g) => self.on_wayland_grab_toggled(g),
            Message::Capture { input, wayland_grabbed } => self.on_capture(input, wayland_grabbed),
            Message::HotkeyEvent(event) => self.on_hotkey_event(event),
            Message::KeyRepeatTick => self.on_key_repeat_tick(),
            Message::KeepaliveTick => self.on_keepalive_tick(),
            Message::KeyRepeatIntervalChanged(v) => self.on_key_repeat_interval_changed(v),
            Message::KeepaliveIntervalChanged(v) => self.on_keepalive_interval_changed(v),
            Message::ReconnectTimeoutChanged(t) => self.on_reconnect_timeout_changed(t),
            Message::BlankScreenToggled(v) => self.on_blank_screen_toggled(v),
            Message::ShowHotkeyOnBlankToggled(v) => self.on_show_hotkey_on_blank_toggled(v),
            Message::EncryptUdpToggled(v) => self.on_encrypt_udp_toggled(v),
            Message::MouseBatchSizeChanged(v) => self.on_mouse_batch_size_changed(v),
            Message::BatchRedundancyChanged(v) => self.on_batch_redundancy_changed(v),
            Message::UdpDropPercentChanged(v) => self.on_udp_drop_percent_changed(v),
            Message::ReconnectCancelSet => self.on_reconnect_cancel_set(),
        }
    }

    #[verifier::spinoff_prover]
    #[verifier::rlimit(80)]
    fn on_select_page(&mut self, p: Page) -> (actions: Vec<ClientAction>)
        requires
            client_can_take(*old(self), Message::SelectPage(p)),
        ensures
            final(self).wf(),
            client_next(*old(self), Message::SelectPage(p), *final(self), actions@),
    {
        let leaving = self.page == Page::Security && p != Page::Security;
        if leaving {
            let np = nonempty_or(&self.pending_passphrase, &self.passphrase);
            self.passphrase = np;
            self.pending_passphrase = String::new();
        }
        self.page = p;
        Vec::new()
    }

    fn on_host_changed(&mut self, host: String, ip: Option<IpAddress>) -> (actions: Vec<ClientAction>)
        requires
            client_can_take(*old(self), Message::HostChanged { host, ip }),
        ensures
            final(self).wf(),
            client_next(*old(self), Message::HostChanged { host, ip }, *final(self), actions@),
    {
        self.host = host;
        self.host_ip = ip;
        self.sync_selection();
        Vec::new()
    }

    fn on_port_changed(&mut self, port: String) -> (actions: Vec<ClientAction>)
        requires
            client_can_take(*old(self), Message::PortChanged(port)),
        ensures
            final(self).wf(),
            client_next(*old(self), Message::PortChanged(port), *final(self), actions@),
    {
        if is_short_digits(port.as_str()) {
            self.port = port;
            self.sync_selection();
        }
        Vec::new()
    }

    fn on_connect(&mut self) -> (actions: Vec<ClientAction>)
        requires
            client_can_take(*old(self), Message::Connect),
        ensures
            final(self).wf(),
            client_next(*old(self), Message::Connect, *final(self), actions@),
    {
        self.last_error = None;
        self.connecting = true;
        Vec::new()
    }

    fn on_connect_success(&mut self, phc: Option<String>, screen_size: Option<(u16, u16)>) -> (actions: Vec<ClientAction>)
        requires
            client_can_take(*old(self), Message::ConnectSuccess { phc, screen_size }),
        ensures
            final(self).wf(),
            client_next(*old(self), Message::ConnectSuccess { phc, screen_size }, *final(self), actions@),
    {
        if let Some(p) = phc {
            self.passphrase_hash = p;
        }
        self.server_screen_size = screen_size;
        let actions = self.connect_actions();
        self.has_sender = true;
        self.connected = true;
        self.connecting = false;
        actions
    }

    fn on_connect_failed(&mut self, e: String) -> (actions: Vec<ClientAction>)
        requires
            client_can_take(*old(self), Message::ConnectFailed(e)),
        ensures
            final(self).wf(),
            client_next(*old(self), Message::ConnectFailed(e), *final(self), actions@),
    {
        self.last_error = Some(e);
        self.connecting = false;
        Vec::new()
    }

    fn on_fingerprint_mismatch(&mut self, host: String, port: u16, new_fingerprint: [u8; 32]) -> (actions: Vec<ClientAction>)
        requires
            client_can_take(*old(self), Message::FingerprintMismatch { host, port, new_fingerprint }),
        ensures
            final(self).wf(),
            client_next(*old(self), Message::FingerprintMismatch { host, port, new_fingerprint }, *final(self), actions@),
    {
        self.connecting = false;
        self.fingerprint_dialog = Some(
            FingerprintDialogState { host, port, new_fingerprint, show_fingerprint: false },
        );
        Vec::new()
    }

    fn on_fingerprint_dialog_toggle_fingerprint(&mut self) -> (actions: Vec<ClientAction>)
        requires
            client_can_take(*old(self), Message::FingerprintDialogToggleFingerprint),
        ensures
            final(self).wf(),
            client_next(*old(self), Message::FingerprintDialogToggleFingerprint, *final(self), actions@),
    {
        if let Some(d) = &mut self.fingerprint_dialog {
            d.show_fingerprint = !d.show_fingerprint;
        }
        Vec::new()
    }

    fn on_fingerprint_dialog_cancel(&mut self) -> (actions: Vec<ClientAction>)
        requires
            client_can_take(*old(self), Message::FingerprintDialogCancel),
        ensures
            final(self).wf(),
            client_next(*old(self), Message::FingerprintDialogCancel, *final(self), actions@),
    {
        self.fingerprint_dialog = None;
        Vec::new()
    }

    fn on_fingerprint_accepted(&mut self) -> (actions: Vec<ClientAction>)
        requires
            old(self).wf(),
        ensures
            final(self).wf(),
            client_next(*old(self), Message::FingerprintDialogAllowOnce, *final(self), actions@),
            client_next(*old(self), Message::FingerprintDialogTrust, *final(self), actions@),
    {
        self.fingerprint_dialog = None;
        self.connecting = true;
        self.last_error = None;
        Vec::new()
    }

    fn on_disconnect(&mut self) -> (actions: Vec<ClientAction>)
        requires
            client_can_take(*old(self), Message::Disconnect),
        ensures
            final(self).wf(),
            client_next(*old(self), Message::Disconnect, *final(self), actions@),
    {
        let mut actions: Vec<ClientAction> = Vec::new();
        actions.push(ClientAction::DropSender);
        actions.push(ClientAction::ResetCursor);
        if self.has_reconnect_cancel {
            actions.push(ClientAction::CancelReconnect);
        }
        self.connected = false;
        self.connecting = false;
        self.has_sender = false;
        self.last_error = None;
        self.pressed_keys = Vec::new();
        self.pressed_mouse_buttons = Vec::new();
        self.reconnecting = false;
        self.reconnect_generation = self.reconnect_generation + 1;
        self.has_reconnect_cancel = false;
        self.grabbed = false;
        self.user_capturing = false;
        proof {
            assert(actions@ =~= seq![ClientAction::DropSender, ClientAction::ResetCursor] + (if old(self).has_reconnect_cancel { seq![ClientAction::CancelReconnect] } else { Seq::<ClientAction>::empty() }));
        }
        actions
    }

    fn on_connection_lost(&mut self) -> (actions: Vec<ClientAction>)
        requires
            client_can_take(*old(self), Message::ConnectionLost),
        ensures
            final(self).wf(),
            client_next(*old(self), Message::ConnectionLost, *final(self), actions@),
    {
        let mut actions: Vec<ClientAction> = Vec::new();
        if self.connected {
            actions.push(ClientAction::DropSender);
            actions.push(ClientAction::ResetCursor);
            self.connected = false;
            self.connecting = false;
            self.has_sender = false;
            self.pressed_keys = Vec::new();
            self.pressed_mouse_buttons = Vec::new();
            self.reconnecting = true;
            self.reconnect_generation = self.reconnect_generation + 1;
            self.has_reconnect_cancel = false;
            self.grabbed = false;
            self.user_capturing = false;
        }
        proof {
            if old(self).connected { assert(actions@ =~= seq![ClientAction::DropSender, ClientAction::ResetCursor]); }
        }
        actions
    }

    fn on_reconnect_success(&mut self, generation: u64, screen_size: Option<(u16, u16)>) -> (actions: Vec<ClientAction>)
        requires
            client_can_take(*old(self), Message::ReconnectSuccess { generation, screen_size }),
        ensures
            final(self).wf(),
            client_next(*old(self), Message::ReconnectSuccess { generation, screen_size }, *final(self), actions@),
    {
        if self.reconnecting && self.reconnect_generation == generation {
            self.server_screen_size = screen_size;
            let actions = self.connect_actions();
            self.has_sender = true;
            self.connected = true;
            self.reconnecting = false;
            self.has_reconnect_cancel = false;
            self.grabbed = false;
            self.user_capturing = false;
            self.last_error = None;
            actions
        } else {
            Vec::new()
        }
    }

    fn on_reconnect_failed(&mut self, generation: u64) -> (actions: Vec<ClientAction>)
        requires
            client_can_take(*old(self), Message::ReconnectFailed(generation)),
        ensures
            final(self).wf(),
            client_next(*old(self), Message::ReconnectFailed(generation), *final(self), actions@),
    {
        if self.reconnecting && self.reconnect_generation == generation {
            self.reconnecting = false;
            self.has_reconnect_cancel = false;
            self.grabbed = false;
            self.user_capturing = false;
            self.last_error = Some("Server closed the connection.".to_string());
        }
        Vec::new()
    }

    fn on_natural_scroll_toggled(&mut self, v: bool) -> (actions: Vec<ClientAction>)
        requires
            client_can_take(*old(self), Message::NaturalScrollToggled(v)),
        ensures
            final(self).wf(),
            client_next(*old(self), Message::NaturalScrollToggled(v), *final(self), actions@),
    {
        self.natural_scroll = v;
        Vec::new()
    }

    #[verifier::spinoff_prover]
    #[verifier::rlimit(80)]
    fn on_capture_mode_changed(&mut self, mode: CaptureMode, wayland_grabbed: bool) -> (actions: Vec<ClientAction>)
        requires
            client_can_take(*old(self), Message::CaptureModeChanged { mode, wayland_grabbed }),
        ensures
            final(self).wf(),
            client_next(*old(self), Message::CaptureModeChanged { mode, wayland_grabbed }, *final(self), actions@),
    {
        let ghost s0 = *self;
        let mut actions: Vec<ClientAction> = Vec::new();
        if self.capture_mode == CaptureMode::Fullscreen && mode != CaptureMode::Fullscreen
            && wayland_grabbed {
            actions.push(ClientAction::ToggleWaylandGrab);
        }
        let ghost pre = actions@;
        self.grabbed = false;
        let mut released = self.release_all_held();
        let ghost rel = released@;
        actions.append(&mut released);
        self.capture_mode = mode;
        let ghost mid = actions@;
        if self.has_sender {
            actions.push(
                ClientAction::SendControl(
                    ControlMsg::SetCaptureMode { window_mode: mode == CaptureMode::Window },
                ),
            );
        }
        let ghost mid2 = actions@;
        if self.connected {
            actions.push(ClientAction::ReportMouseScale);
        }
        proof {
            assert(rel == release_all(s0));
            assert(mid =~= pre + rel);
            assert(mid2 =~= mid + when_sending(s0, seq![control(capture_mode_msg(mode))]));
            assert(actions@ =~= mid2 + (if s0.connected {
                seq![ClientAction::ReportMouseScale]
            } else {
                Seq::<ClientAction>::empty()
            }));
        }
        actions
    }

    fn on_require_auth_toggled(&mut self, v: bool) -> (actions: Vec<ClientAction>)
        requires
            client_can_take(*old(self), Message::RequireAuthToggled(v)),
        ensures
            final(self).wf(),
            client_next(*old(self), Message::RequireAuthToggled(v), *final(self), actions@),
    {
        self.require_auth = v;
        Vec::new()
    }

    fn on_passphrase_changed(&mut self, p: String) -> (actions: Vec<ClientAction>)
        requires
            client_can_take(*old(self), Message::PassphraseChanged(p)),
        ensures
            final(self).wf(),
            client_next(*old(self), Message::PassphraseChanged(p), *final(self), actions@),
    {
        self.pending_passphrase = p;
        Vec::new()
    }

    fn on_select_discovered(&mut self, i: usize) -> (actions: Vec<ClientAction>)
        requires
            client_can_take(*old(self), Message::SelectDiscovered(i)),
        ensures
            final(self).wf(),
            client_next(*old(self), Message::SelectDiscovered(i), *final(self), actions@),
    {
        if i < self.discovered.len() {
            let host = match &self.discovered[i].first_ip_text {
                Some(t) => t.clone(),
                None => self.discovered[i].host.clone(),
            };
            let ip = if self.discovered[i].addrs.len() > 0 {
                Some(self.discovered[i].addrs[0].0)
            } else {
                None
            };
            let port = self.discovered[i].port.clone();
            let addrs = copy_addrs(&self.discovered[i].addrs);
            let f = self.discovered[i].fullname.clone();
            self.host = host;
            self.host_ip = ip;
            self.port = port;
            self.selected_addrs = addrs;
            self.selected_fullname = Some(f);
        }
        Vec::new()
    }

    fn on_discovery_found(&mut self, d: DiscoveredServer) -> (actions: Vec<ClientAction>)
        requires
            client_can_take(*old(self), Message::DiscoveryFound(d)),
        ensures
            final(self).wf(),
            client_next(*old(self), Message::DiscoveryFound(d), *final(self), actions@),
    {
        found_server(&mut self.discovered, d);
        self.sync_selection();
        Vec::new()
    }

    fn on_discovery_lost(&mut self, f: String) -> (actions: Vec<ClientAction>)
        requires
            client_can_take(*old(self), Message::DiscoveryLost(f)),
        ensures
            final(self).wf(),
            client_next(*old(self), Message::DiscoveryLost(f), *final(self), actions@),
    {
        remove_fullname(&mut self.discovered, f.as_str());
        self.sync_selection();
        Vec::new()
    }

    fn on_open_hotkey_dialog(&mut self) -> (actions: Vec<ClientAction>)
        requires
            client_can_take(*old(self), Message::OpenHotkeyDialog),
        ensures
            final(self).wf(),
            client_next(*old(self), Message::OpenHotkeyDialog, *final(self), actions@),
    {
        self.hotkey_dialog_open = true;
        self.pending_hotkey = String::new();
        Vec::new()
    }

    fn on_close_hotkey_dialog(&mut self) -> (actions: Vec<ClientAction>)
        requires
            client_can_take(*old(self), Message::CloseHotkeyDialog),
        ensures
            final(self).wf(),
            client_next(*old(self), Message::CloseHotkeyDialog, *final(self), actions@),
    {
        self.hotkey_dialog_open = false;
        self.pending_hotkey = String::new();
        Vec::new()
    }

    fn on_confirm_hotkey(&mut self) -> (actions: Vec<ClientAction>)
        requires
            client_can_take(*old(self), Message::ConfirmHotkey),
        ensures
            final(self).wf(),
            client_next(*old(self), Message::ConfirmHotkey, *final(self), actions@),
    {
        let h = nonempty_or(&self.pending_hotkey, &self.hotkey);
        self.hotkey = h;
        self.hotkey_dialog_open = false;
        self.pending_hotkey = String::new();
        Vec::new()
    }

    fn on_hotkey_input(&mut self, escape: bool, chord: Option<String>) -> (actions: Vec<ClientAction>)
        requires
            client_can_take(*old(self), Message::HotkeyInput { escape, chord }),
        ensures
            final(self).wf(),
            client_next(*old(self), Message::HotkeyInput { escape, chord }, *final(self), actions@),
    {
        if escape {
            self.hotkey_dialog_open = false;
            self.pending_hotkey = String::new();
        } else if let Some(c) = chord {
            self.pending_hotkey = c;
        }
        Vec::new()
    }

    fn on_capture_hotkey(&mut self) -> (actions: Vec<ClientAction>)
        requires
            client_can_take(*old(self), Message::CaptureHotkey),
        ensures
            final(self).wf(),
            client_next(*old(self), Message::CaptureHotkey, *final(self), actions@),
    {
        if self.capture_mode == CaptureMode::Fullscreen {
            let mut actions: Vec<ClientAction> = Vec::new();
            actions.push(ClientAction::ToggleWaylandGrab);
            actions
        } else {
            self.user_capturing = !self.user_capturing;
            self.grabbed = self.user_capturing;
            if !self.grabbed {
                self.release_all_held()
            } else {
                Vec::new()
            }
        }
    }

    fn on_wayland_grab_toggled(&mut self, g: bool) -> (actions: Vec<ClientAction>)
        requires
            client_can_take(*old(self), Message::WaylandGrabToggled(g)),
        ensures
            final(self).wf(),
            client_next(*old(self), Message::WaylandGrabToggled(g), *final(self), actions@),
    {
        self.user_capturing = g;
        self.grabbed = g;
        Vec::new()
    }

    fn on_capture(&mut self, input: CaptureInput, wayland_grabbed: bool) -> (actions: Vec<ClientAction>)
        requires
            client_can_take(*old(self), Message::Capture { input, wayland_grabbed }),
        ensures
            final(self).wf(),
            client_next(*old(self), Message::Capture { input, wayland_grabbed }, *final(self), actions@),
    {
        let forward = match self.capture_mode {
            CaptureMode::Window => self.grabbed,
            CaptureMode::Fullscreen => wayland_grabbed,
        };
        if !forward {
            return Vec::new();
        }
        match input {
            CaptureInput::Key { code, pressed } => self.key_input(code, pressed),
            CaptureInput::Button { button, pressed } => self.button_input(button, pressed),
            CaptureInput::Wire(e) => {
                let mut actions: Vec<ClientAction> = Vec::new();
                if self.has_sender {
                    actions.push(ClientAction::Send(e));
                }
                actions
            },
            CaptureInput::Other => Vec::new(),
        }
    }

    #[verifier::spinoff_prover]
    #[verifier::rlimit(80)]
    fn on_hotkey_event(&mut self, event: InputEvent) -> (actions: Vec<ClientAction>)
        requires
            client_can_take(*old(self), Message::HotkeyEvent(event)),
        ensures
            final(self).wf(),
            client_next(*old(self), Message::HotkeyEvent(event), *final(self), actions@),
    {
        match event {
            InputEvent::HotkeyToggled { grabbed } => {
                self.grabbed = grabbed;
                self.user_capturing = grabbed;
                if !grabbed {
                    self.release_all_held()
                } else {
                    Vec::new()
                }
            },
            InputEvent::BackendError(m) => {
                let mut actions: Vec<ClientAction> = Vec::new();
                actions.push(ClientAction::ReportError(m));
                actions
            },
            InputEvent::KeyPress { keycode } => {
                let code: u16 = if keycode >= 8 { (keycode - 8) as u16 } else { 0 };
                self.key_input(code, true)
            },
            InputEvent::KeyRelease { keycode } => {
                let code: u16 = if keycode >= 8 { (keycode - 8) as u16 } else { 0 };
                self.key_input(code, false)
            },
            InputEvent::MouseMove { dx, dy } => {
                let mut actions: Vec<ClientAction> = Vec::new();
                if self.has_sender {
                    actions.push(ClientAction::SendScaledMove { dx, dy });
                }
                actions
            },
            InputEvent::Wheel { dx, dy } => {
                let d: i8 = if self.natural_scroll { dy } else { -dy };
                let mut actions: Vec<ClientAction> = Vec::new();
                if self.has_sender {
                    actions.push(ClientAction::Send(Event::Wheel { dx, dy: d, seq: 0 }));
                }
                actions
            },
            InputEvent::MouseButton { button, pressed } => self.button_input(button, pressed),
        }
    }

    fn on_key_repeat_tick(&mut self) -> (actions: Vec<ClientAction>)
        requires
            client_can_take(*old(self), Message::KeyRepeatTick),
        ensures
            final(self).wf(),
            client_next(*old(self), Message::KeyRepeatTick, *final(self), actions@),
    {
        self.repeat_held()
    }

    fn on_keepalive_tick(&mut self) -> (actions: Vec<ClientAction>)
        requires
            client_can_take(*old(self), Message::KeepaliveTick),
        ensures
            final(self).wf(),
            client_next(*old(self), Message::KeepaliveTick, *final(self), actions@),
    {
        let mut actions: Vec<ClientAction> = Vec::new();
        if self.has_sender {
            actions.push(ClientAction::Send(Event::Keepalive));
        }
        actions
    }

    fn on_key_repeat_interval_changed(&mut self, v: u16) -> (actions: Vec<ClientAction>)
        requires
            client_can_take(*old(self), Message::KeyRepeatIntervalChanged(v)),
        ensures
            final(self).wf(),
            client_next(*old(self), Message::KeyRepeatIntervalChanged(v), *final(self), actions@),
    {
        self.key_repeat_interval_ms = v;
        Vec::new()
    }

    fn on_keepalive_interval_changed(&mut self, v: u16) -> (actions: Vec<ClientAction>)
        requires
            client_can_take(*old(self), Message::KeepaliveIntervalChanged(v)),
        ensures
            final(self).wf(),
            client_next(*old(self), Message::KeepaliveIntervalChanged(v), *final(self), actions@),
    {
        self.keepalive_interval_ms = (v / 10) * 10;
        Vec::new()
    }

    fn on_reconnect_timeout_changed(&mut self, t: String) -> (actions: Vec<ClientAction>)
        requires
            client_can_take(*old(self), Message::ReconnectTimeoutChanged(t)),
        ensures
            final(self).wf(),
            client_next(*old(self), Message::ReconnectTimeoutChanged(t), *final(self), actions@),
    {
        if is_short_digits(t.as_str()) {
            self.reconnect_timeout_secs = t;
        }
        Vec::new()
    }

    fn on_blank_screen_toggled(&mut self, v: bool) -> (actions: Vec<ClientAction>)
        requires
            client_can_take(*old(self), Message::BlankScreenToggled(v)),
        ensures
            final(self).wf(),
            client_next(*old(self), Message::BlankScreenToggled(v), *final(self), actions@),
    {
        self.blank_screen = v;
        Vec::new()
    }

    fn on_show_hotkey_on_blank_toggled(&mut self, v: bool) -> (actions: Vec<ClientAction>)
        requires
            client_can_take(*old(self), Message::ShowHotkeyOnBlankToggled(v)),
        ensures
            final(self).wf(),
            client_next(*old(self), Message::ShowHotkeyOnBlankToggled(v), *final(self), actions@),
    {
        self.show_hotkey_on_blank = v;
        Vec::new()
    }

    fn on_encrypt_udp_toggled(&mut self, v: bool) -> (actions: Vec<ClientAction>)
        requires
            client_can_take(*old(self), Message::EncryptUdpToggled(v)),
        ensures
            final(self).wf(),
            client_next(*old(self), Message::EncryptUdpToggled(v), *final(self), actions@),
    {
        self.encrypt_udp = v;
        Vec::new()
    }

    fn on_mouse_batch_size_changed(&mut self, v: u8) -> (actions: Vec<ClientAction>)
        requires
            client_can_take(*old(self), Message::MouseBatchSizeChanged(v)),
        ensures
            final(self).wf(),
            client_next(*old(self), Message::MouseBatchSizeChanged(v), *final(self), actions@),
    {
        self.mouse_batch_size = v;
        let mut actions: Vec<ClientAction> = Vec::new();
        if self.has_sender {
            actions.push(ClientAction::SetMouseBatchSize(v));
            actions.push(
                ClientAction::SendControl(
                    ControlMsg::SetBatchConfig { max_batch: v, batch_redundancy: self.batch_redundancy },
                ),
            );
        }
        proof {
            if old(self).has_sender { assert(actions@ =~= seq![ClientAction::SetMouseBatchSize(v), control(ControlMsg::SetBatchConfig { max_batch: v, batch_redundancy: old(self).batch_redundancy })]); }
        }
        actions
    }

    fn on_batch_redundancy_changed(&mut self, v: u8) -> (actions: Vec<ClientAction>)
        requires
            client_can_take(*old(self), Message::BatchRedundancyChanged(v)),
        ensures
            final(self).wf(),
            client_next(*old(self), Message::BatchRedundancyChanged(v), *final(self), actions@),
    {
        self.batch_redundancy = v;
        let mut actions: Vec<ClientAction> = Vec::new();
        if self.has_sender {
            actions.push(ClientAction::SetBatchRedundancy(v));
            actions.push(
                ClientAction::SendControl(
                    ControlMsg::SetBatchConfig { max_batch: self.mouse_batch_size, batch_redundancy: v },
                ),
            );
        }
        proof {
            if old(self).has_sender { assert(actions@ =~= seq![ClientAction::SetBatchRedundancy(v), control(ControlMsg::SetBatchConfig { max_batch: old(self).mouse_batch_size, batch_redundancy: v })]); }
        }
        actions
    }

    fn on_udp_drop_percent_changed(&mut self, v: u8) -> (actions: Vec<ClientAction>)
        requires
            client_can_take(*old(self), Message::UdpDropPercentChanged(v)),
        ensures
            final(self).wf(),
            client_next(*old(self), Message::UdpDropPercentChanged(v), *final(self), actions@),
    {
        self.udp_drop_percent = v;
        let mut actions: Vec<ClientAction> = Vec::new();
        if self.has_sender {
            actions.push(ClientAction::SetUdpDropPercent(v));
        }
        actions
    }

    fn on_reconnect_cancel_set(&mut self) -> (actions: Vec<ClientAction>)
        requires
            client_can_take(*old(self), Message::ReconnectCancelSet),
        ensures
            final(self).wf(),
            client_next(*old(self), Message::ReconnectCancelSet, *final(self), actions@),
    {
        self.has_reconnect_cancel = true;
        Vec::new()
    }

    fn connect_actions(&self) -> (actions: Vec<ClientAction>)
        ensures
            actions@ == connect_actions(*self),
    {
        let mut actions: Vec<ClientAction> = Vec::new();
        actions.push(ClientAction::ReportMouseScale);
        actions.push(
            ClientAction::SendControl(
                ControlMsg::SetCaptureMode { window_mode: self.capture_mode == CaptureMode::Window },
            ),
        );
        actions.push(
            ClientAction::SendControl(
                ControlMsg::SetBatchConfig {
                    max_batch: self.mouse_batch_size,
                    batch_redundancy: self.batch_redundancy,
                },
            ),
        );
        actions.push(ClientAction::KeepSender);
        proof {
            assert(actions@ =~= connect_actions(*self));
        }
        actions
    }
}

/// What the connection card shows.
#[derive(Debug, Clone)]
pub struct ConnectionView {
    pub status: String,
    pub tone: Tone,
    pub icon: Option<char>,
    /// The address and port may be edited: no connection runs or is sought.
    pub editable: bool,
    pub host_missing: bool,
    pub port_problem: Option<String>,
    /// The disconnect button shows in place of connect.
    pub offers_disconnect: bool,
    /// Connect may be pressed.
    pub can_connect: bool,
    /// The local server runs and must be stopped first.
    pub server_running_notice: bool,
    /// The test packet loss in effect.
    pub drop_notice: Option<String>,
    pub error: Option<String>,
}

/// A connection runs or is sought.
pub open spec fn connection_active(s: State) -> bool {
    s.connected || s.reconnecting || s.connecting
}

/// The port field holds a port from 1 to 65535.
pub open spec fn port_valid(port: Seq<char>) -> bool {
    parse_unsigned(port, 65535) matches Some(v) && v > 0
}

/// The connection status line.
pub open spec fn connection_status(s: State) -> Seq<char> {
    if s.reconnecting {
        "Reconnecting..."@
    } else if s.connecting {
        "Connecting..."@
    } else if s.connected && !s.require_auth {
        "Connected (insecure)"@
    } else if s.connected {
        "Connected"@
    } else {
        "Disconnected"@
    }
}

impl State {
    /// What the connection card shows, given whether the local server runs.
    pub fn connection_view(&self, server_running: bool) -> (v: ConnectionView)
        ensures
            v.status@ == connection_status(*self),
            v.tone == (if self.connected {
                if self.require_auth { Tone::Success } else { Tone::Danger }
            } else if self.reconnecting || self.connecting {
                Tone::Warning
            } else {
                Tone::Neutral
            }),
            v.icon == (if self.connected {
                Some(if self.require_auth { icons::LOCK } else { icons::TRIANGLE_EXCLAMATION })
            } else if self.reconnecting || self.connecting {
                Some(icons::ROTATE)
            } else {
                None
            }),
            v.editable == !connection_active(*self),
            v.host_missing == (!connection_active(*self) && self.host@.len() == 0),
            match v.port_problem {
                Some(p) => if !connection_active(*self) && self.port@.len() == 0 {
                    p@ == "Port is required."@
                } else {
                    self.port@.len() > 0 && !port_valid(self.port@) && p@ == "Port must be between 1 and 65535."@
                },
                None => !(!connection_active(*self) && self.port@.len() == 0)
                    && !(self.port@.len() > 0 && !port_valid(self.port@)),
            },
            v.offers_disconnect == connection_active(*self),
            v.can_connect == (!connection_active(*self) && self.host@.len() > 0 && port_valid(self.port@)
                && !server_running),
            v.server_running_notice == (server_running && !connection_active(*self)),
            match v.drop_notice {
                Some(t) => self.udp_drop_percent > 0 && t@ == "Dropping "@ + decimal(self.udp_drop_percent as nat)
                    + "% of UDP packets for testing."@,
                None => self.udp_drop_percent == 0,
            },
            opt_same(v.error, self.last_error),
    {
        let status = if self.reconnecting {
            "Reconnecting..."
        } else if self.connecting {
            "Connecting..."
        } else if self.connected && !self.require_auth {
            "Connected (insecure)"
        } else if self.connected {
            "Connected"
        } else {
            "Disconnected"
        };
        let (tone, icon) = if self.connected {
            if self.require_auth {
                (Tone::Success, Some(icons::LOCK))
            } else {
                (Tone::Danger, Some(icons::TRIANGLE_EXCLAMATION))
            }
        } else if self.reconnecting || self.connecting {
            (Tone::Warning, Some(icons::ROTATE))
        } else {
            (Tone::Neutral, None)
        };
        let active = self.connected || self.reconnecting || self.connecting;
        let host_empty = self.host.as_str().unicode_len() == 0;
        let port_empty = self.port.as_str().unicode_len() == 0;
        let valid = match parse_uint(self.port.as_str(), 65535) {
            Some(p) => p > 0,
            None => false,
        };
        let port_problem = if !active && port_empty {
            Some("Port is required.".to_string())
        } else if !port_empty && !valid {
            Some("Port must be between 1 and 65535.".to_string())
        } else {
            None
        };
        let drop_notice = if self.udp_drop_percent > 0 {
            let mut t = "Dropping ".to_string();
            push_decimal(&mut t, self.udp_drop_percent as u64);
            t.append("% of UDP packets for testing.");
            Some(t)
        } else {
            None
        };
        ConnectionView {
            status: status.to_string(),
            tone,
            icon,
            editable: !active,
            host_missing: !active && host_empty,
            port_problem,
            offers_disconnect: active,
            can_connect: !active && !host_empty && valid && !server_running,
            server_running_notice: server_running && !active,
            drop_notice,
            error: copy_text(&self.last_error),
        }
    }
}

impl State {
    /// Whether a connection is up.
    pub fn is_connected(&self) -> (b: bool)
        ensures
            b == self.connected,
    {
        self.connected
    }

    /// Connected and capturing the window only.
    pub fn is_capturing_window(&self) -> (b: bool)
        ensures
            b == (self.connected && self.capture_mode == CaptureMode::Window),
    {
        self.connected && self.capture_mode == CaptureMode::Window
    }

    /// Connected and capturing the whole screen.
    pub fn is_capturing_fullscreen(&self) -> (b: bool)
        ensures
            b == (self.connected && self.capture_mode == CaptureMode::Fullscreen),
    {
        self.connected && self.capture_mode == CaptureMode::Fullscreen
    }

    /// The local screen is blanked: connected, capturing the whole screen
    /// at the user's wish, with blanking on.
    pub fn is_blank_screen_active(&self) -> (b: bool)
        ensures
            b == (self.connected && self.capture_mode == CaptureMode::Fullscreen && self.user_capturing
                && self.blank_screen),
    {
        self.connected && self.capture_mode == CaptureMode::Fullscreen && self.user_capturing && self.blank_screen
    }

    /// Whether the input is grabbed.
    pub fn is_grabbed(&self) -> (b: bool)
        ensures
            b == self.grabbed,
    {
        self.grabbed
    }

    /// Whether a reconnection is under way.
    pub fn is_reconnecting(&self) -> (b: bool)
        ensures
            b == self.reconnecting,
    {
        self.reconnecting
    }

    /// The passphrase to authenticate with: the one typed, where
    /// authentication is on and one was typed.
    pub fn connection_passphrase(&self) -> (r: Option<&str>)
        ensures
            match r {
                Some(p) => self.require_auth && self.passphrase@.len() > 0 && p@ == self.passphrase@,
                None => !self.require_auth || self.passphrase@.len() == 0,
            },
    {
        if self.require_auth && self.passphrase.as_str().unicode_len() > 0 {
            Some(self.passphrase.as_str())
        } else {
            None
        }
    }
}

/// Every character is ASCII.
pub open spec fn ascii_text(s: Seq<char>) -> bool {
    forall|i: int| 0 <= i < s.len() ==> (s[i] as u32) < 128
}

/// The `i`-th group of eight characters of a fingerprint text (shorter at
/// the end).
pub open spec fn fp_group(s: Seq<char>, i: nat) -> Seq<char> {
    let start: int = 8 * (i as int);
    let end: int = if start + 8 <= s.len() { start + 8 } else { s.len() as int };
    s.subrange(start, end)
}

/// What comes before group `i`: nothing before the first, a line break
/// before every fourth, a space before the others.
pub open spec fn fp_sep(i: nat) -> Seq<char> {
    if i == 0 {
        Seq::empty()
    } else if i % 4 == 0 {
        "\n"@
    } else {
        " "@
    }
}

/// The first `n` groups, each after its separator.
pub open spec fn fp_groups(s: Seq<char>, n: nat) -> Seq<char>
    decreases n,
{
    if n == 0 {
        Seq::empty()
    } else {
        fp_groups(s, (n - 1) as nat) + fp_sep((n - 1) as nat) + fp_group(s, (n - 1) as nat)
    }
}

/// A fingerprint text as the dialog shows it: in groups of eight
/// characters, four groups to a line.
pub open spec fn grouped_fingerprint(s: Seq<char>) -> Seq<char> {
    fp_groups(s, ((s.len() + 7) / 8) as nat)
}

/// Lay out a fingerprint text in groups of eight characters, four groups
/// to a line.
pub fn group_fingerprint(text: &str) -> (r: String)
    requires
        ascii_text(text@),
    ensures
        r@ == grouped_fingerprint(text@),
{
    proof {
        reveal_strlit("\n");
        reveal_strlit(" ");
    }
    let n = text.unicode_len();
    let mut out = String::new();
    let mut start: usize = 0;
    let mut i: usize = 0;
    while start < n
        invariant
            n == text@.len(),
            start <= n,
            start == (if 8 * i <= n { 8 * i } else { n as int }),
            8 * i <= n + 7,
            start < n ==> start == 8 * i,
            out@ == fp_groups(text@, i as nat),
        decreases n - start,
    {
        let ghost gi = i as nat;
        if i > 0 {
            if i % 4 == 0 {
                out.append("\n");
            } else {
                out.append(" ");
            }
        }
        assert(out@ == fp_groups(text@, gi) + fp_sep(gi));
        let end = if n - start >= 8 { start + 8 } else { n };
        let chunk = text.substring_char(start, end);
        assert(chunk@ == fp_group(text@, gi));
        out.append(chunk);
        i += 1;
        start = end;
    }
    assert(i as int == (n as int + 7) / 8) by (nonlinear_arith)
        requires
            8 * i <= n + 7,
            start == n,
            start == (if 8 * i <= n { 8 * i } else { n as int }),
            i >= 0,
            n >= 0,
            (i > 0 ==> 8 * (i - 1) < n),
    ;
    out
}

/// A hexadecimal text is ASCII.
proof fn lemma_hex_text_ascii(bytes: Seq<u8>)
    ensures
        ascii_text(hex_text(bytes)),
    decreases bytes.len(),
{
    if bytes.len() > 0 {
        lemma_hex_text_ascii(bytes.drop_last());
        let b = bytes.last();
        assert((hex_char(b as nat / 16) as u32) < 128);
        assert((hex_char(b as nat % 16) as u32) < 128);
        let h = hex_text(bytes);
        assert(h == hex_text(bytes.drop_last()) + seq![hex_char(b as nat / 16), hex_char(b as nat % 16)]);
    }
}

/// What the dialog about a changed certificate shows.
#[derive(Debug, Clone)]
pub struct FingerprintDialogView {
    pub message: String,
    pub toggle_label: String,
    /// The remembered fingerprint, laid out, when the details are shown
    /// and one is remembered.
    pub known_fingerprint: Option<String>,
    /// The new fingerprint, laid out, when the details are shown.
    pub new_fingerprint: Option<String>,
}

/// The dialog's message for a server.
pub open spec fn changed_key_message(host: Seq<char>, port: u16) -> Seq<char> {
    "The computer at "@ + host + ":"@ + decimal(port as nat) + " has a different security key than last time."@
}

/// Where the details are shown, the remembered text for the server is
/// ASCII, as fingerprints written by this library are.
pub open spec fn dialog_readable(s: State, known: Map<Seq<char>, Seq<char>>) -> bool {
    match s.fingerprint_dialog {
        Some(d) => d.show_fingerprint && known.contains_key(server_key_text(d.host@, d.port)) ==> ascii_text(
            known[server_key_text(d.host@, d.port)],
        ),
        None => true,
    }
}

impl State {
    /// What the dialog about a changed certificate shows, if it is open,
    /// given the remembered fingerprints.
    pub fn fingerprint_dialog_view(&self, known: &KnownServers) -> (v: Option<FingerprintDialogView>)
        requires
            known.wf(),
            dialog_readable(*self, known@),
        ensures
            match (self.fingerprint_dialog, v) {
                (None, None) => true,
                (Some(d), Some(w)) => {
                    let k = server_key_text(d.host@, d.port);
                    &&& w.message@ == changed_key_message(d.host@, d.port)
                    &&& w.toggle_label@ == (if d.show_fingerprint { "Hide nerd stuff"@ } else { "Show nerd stuff"@ })
                    &&& match w.new_fingerprint {
                        Some(t) => d.show_fingerprint && t@ == grouped_fingerprint(hex_text(d.new_fingerprint@)),
                        None => !d.show_fingerprint,
                    }
                    &&& match w.known_fingerprint {
                        Some(t) => d.show_fingerprint && known@.contains_key(k) && t@ == grouped_fingerprint(known@[k]),
                        None => !d.show_fingerprint || !known@.contains_key(k),
                    }
                },
                _ => false,
            },
    {
        let d = match &self.fingerprint_dialog {
            Some(d) => d,
            None => return None,
        };
        let mut message = "The computer at ".to_string();
        message.append(d.host.as_str());
        message.append(":");
        push_decimal(&mut message, d.port as u64);
        message.append(" has a different security key than last time.");
        let toggle_label = if d.show_fingerprint {
            "Hide nerd stuff".to_string()
        } else {
            "Show nerd stuff".to_string()
        };
        let (known_fingerprint, new_fingerprint) = if d.show_fingerprint {
            let key = server_key(d.host.as_str(), d.port);
            let known_text = match known.get(key.as_str()) {
                Some(t) => Some(group_fingerprint(t.as_str())),
                None => None,
            };
            let hex = format_fingerprint(&d.new_fingerprint);
            proof {
                lemma_hex_text_ascii(d.new_fingerprint@);
            }
            (known_text, Some(group_fingerprint(hex.as_str())))
        } else {
            (None, None)
        };
        Some(FingerprintDialogView { message, toggle_label, known_fingerprint, new_fingerprint })
    }
}

impl State {
    /// What the security page says of the passphrase where authentication
    /// is on and no new one is being typed: whether one is set, typed
    /// before or remembered as a hash.
    pub fn passphrase_is_set(&self) -> (b: Option<bool>)
        ensures
            b == (if self.require_auth && self.pending_passphrase@.len() == 0 {
                Some(self.passphrase@.len() > 0 || self.passphrase_hash@.len() > 0)
            } else {
                None
            }),
    {
        if self.require_auth && self.pending_passphrase.as_str().unicode_len() == 0 {
            Some(self.passphrase.as_str().unicode_len() > 0 || self.passphrase_hash.as_str().unicode_len() > 0)
        } else {
            None
        }
    }
}

} // verus!
