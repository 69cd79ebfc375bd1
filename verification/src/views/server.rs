//! The server's settings and run state, how each user action changes it,
//! and what it asks of the listener and of the mDNS daemon.

use vstd::prelude::*;
use vstd::string::StringExecFns;
use crate::config::{hash_passphrase, hashed_passphrase, ServerConfig, ServerIcon};
use crate::discovery::{bind_options, display_endpoint, endpoint_text, Registration};
use crate::views::Tone;
use crate::icons;
use crate::text::{parse_uint, parse_unsigned, str_eq};
use crate::views::client::{is_short_digits, short_digits};

verus! {

/// The pages of the server's settings.
#[derive(Debug, Clone, Copy, PartialEq, Eq, Structural)]
pub enum Page {
    Status,
    Network,
    Security,
    Advanced,
}

impl Page {
    /// All pages, in navigation order.
    pub const ALL: [Page; 4] = [Page::Status, Page::Network, Page::Security, Page::Advanced];

    /// The page's name in the navigation.
    pub fn label(self) -> (s: &'static str)
        ensures
            s@ == (match self {
                Page::Status => "Status"@,
                Page::Network => "Network"@,
                Page::Security => "Security"@,
                Page::Advanced => "Advanced"@,
            }),
    {
        match self {
            Page::Status => "Status",
            Page::Network => "Network",
            Page::Security => "Security",
            Page::Advanced => "Advanced",
        }
    }

    /// The page's icon glyph.
    pub fn icon(self) -> (c: char)
        ensures
            c == (match self {
                Page::Status => icons::SIGNAL,
                Page::Network => icons::NETWORK_WIRED,
                Page::Security => icons::SHIELD_HALVED,
                Page::Advanced => icons::GEAR,
            }),
    {
        match self {
            Page::Status => icons::SIGNAL,
            Page::Network => icons::NETWORK_WIRED,
            Page::Security => icons::SHIELD_HALVED,
            Page::Advanced => icons::GEAR,
        }
    }
}

/// The settings a running server was started with.
#[derive(Debug, Clone)]
pub struct RunningConfig {
    pub bind_address: String,
    pub port: String,
    pub discoverable: bool,
    pub require_auth: bool,
    pub passphrase_hash: String,
    pub name: String,
    pub icon: ServerIcon,
    pub key_timeout_ms: u16,
    pub encrypt_udp: bool,
}

/// How the listener is to be bound.
#[derive(Debug, Clone)]
pub struct ListenRequest {
    pub address: String,
    pub port: u16,
    pub key_timeout_ms: u16,
    pub require_auth: bool,
    pub passphrase_hash: String,
    pub encrypt_udp: bool,
}

/// How the server is to be advertised over mDNS.
#[derive(Debug, Clone)]
pub struct RegistrationRequest {
    pub name: String,
    pub port: u16,
    pub bind_address: String,
    pub icon: ServerIcon,
    pub require_auth: bool,
    pub encrypt_udp: bool,
}

/// A user action, or the outcome of work that an action asked for.
#[derive(Debug, Clone)]
pub enum Message {
    SelectPage(Page),
    /// Start was pressed, and the listener that `listen_request` describes
    /// was bound; the error, where binding failed.
    StartServer(Option<String>),
    StopServer,
    /// Restart was pressed: the listener was closed, and the one that
    /// `listen_request` describes was bound; the error, where binding failed.
    RestartServer(Option<String>),
    BindAddressChanged(String),
    PortChanged(String),
    DiscoverableToggled(bool),
    RequireAuthToggled(bool),
    PassphraseChanged(String),
    IconChanged(ServerIcon),
    NameChanged(String),
    KeyTimeoutChanged(u16),
    EncryptUdpToggled(bool),
    /// What a `Register` action gave: the registration, if it was made.
    Registered(Option<Registration>),
}

/// What the server asks of its listener and of the mDNS daemon.
#[derive(Debug, Clone)]
pub enum ServerAction {
    /// Close the listener.
    CloseListener,
    /// Withdraw the mDNS registration, if there is one.
    Unregister,
    /// Advertise the server over mDNS.
    Register(RegistrationRequest),
}

/// The port the server falls back on.
pub const DEFAULT_PORT: u16 = 7878;

/// The server's state.
pub struct State {
    pub page: Page,
    pub running: bool,
    pub bind_address: String,
    pub bind_options: Vec<String>,
    pub port: String,
    pub discoverable: bool,
    pub require_auth: bool,
    pub passphrase: String,
    pub passphrase_hash: String,
    pub icon: ServerIcon,
    pub name: String,
    pub active_config: Option<RunningConfig>,
    pub registration: Option<Registration>,
    pub key_timeout_ms: u16,
    pub last_error: Option<String>,
    pub encrypt_udp: bool,
}

/// The port that the port field gives: its value, or 7878 where it does not
/// read as a port number.
pub open spec fn port_value(port: Seq<char>) -> u16 {
    match parse_unsigned(port, 65535) {
        Some(v) => v as u16,
        None => DEFAULT_PORT,
    }
}

/// `c` records the settings that `s` holds now.
pub open spec fn records_settings(c: RunningConfig, s: State) -> bool {
    &&& c.bind_address@ == s.bind_address@
    &&& c.port@ == s.port@
    &&& c.discoverable == s.discoverable
    &&& c.require_auth == s.require_auth
    &&& c.passphrase_hash@ == s.passphrase_hash@
    &&& c.name@ == s.name@
    &&& c.icon == s.icon
    &&& c.key_timeout_ms == s.key_timeout_ms
    &&& c.encrypt_udp == s.encrypt_udp
}

/// The server runs with settings other than those shown, or a new
/// passphrase waits to be hashed: a restart would change something.
pub open spec fn settings_differ(s: State) -> bool {
    s.running && ((s.active_config matches Some(c) && !records_settings(c, s)) || s.passphrase@.len() > 0)
}

/// `r` asks to advertise the server as `s` is set up.
pub open spec fn registers(s: State, r: RegistrationRequest) -> bool {
    &&& r.name@ == s.name@
    &&& r.port == port_value(s.port@)
    &&& r.bind_address@ == s.bind_address@
    &&& r.icon == s.icon
    &&& r.require_auth == s.require_auth
    &&& r.encrypt_udp == s.encrypt_udp
}

/// The actions that renew the registration in state `s`: withdraw the old
/// one, and advertise anew where the server runs and is discoverable.
pub open spec fn renews_registration(s: State, a: Seq<ServerAction>) -> bool {
    if s.running && s.discoverable {
        &&& a.len() == 2
        &&& a[0] is Unregister
        &&& a[1] matches ServerAction::Register(r) && registers(s, r)
    } else {
        a.len() == 1 && a[0] is Unregister
    }
}

/// The server has started with the settings of `s`.
pub open spec fn started(s: State, t: State, a: Seq<ServerAction>) -> bool {
    &&& t == (State {
        running: t.running,
        active_config: t.active_config,
        registration: None,
        last_error: None,
        ..s
    })
    &&& t.active_config matches Some(c) && records_settings(c, s)
    &&& renews_registration(t, a)
}

/// The state `t` and the actions `a` that message `m` gives in state `s`.
pub open spec fn server_next(s: State, m: Message, t: State, a: Seq<ServerAction>) -> bool {
    match m {
        Message::SelectPage(p) => {
            &&& a.len() == 0
            &&& if s.page == Page::Security && p != Page::Security && s.passphrase@.len() > 0 {
                &&& t == (State {
                    page: p,
                    passphrase: t.passphrase,
                    passphrase_hash: t.passphrase_hash,
                    ..s
                })
                &&& t.passphrase@.len() == 0
                &&& hashed_passphrase(s.passphrase@, t.passphrase_hash@)
            } else {
                t == (State { page: p, ..s })
            }
        },
        Message::StartServer(error) => match error {
            None => started(s, t, a) && t.running,
            Some(e) => t == (State { last_error: Some(e), ..s }) && a.len() == 0,
        },
        Message::StopServer => {
            &&& t == (State {
                running: false,
                active_config: None,
                registration: None,
                last_error: None,
                ..s
            })
            &&& a.len() == 2
            &&& a[0] is CloseListener
            &&& a[1] is Unregister
        },
        Message::RestartServer(error) => match error {
            None => started(s, t, a) && t.running == s.running,
            Some(e) => {
                &&& t == (State {
                    running: false,
                    active_config: None,
                    registration: None,
                    last_error: Some(e),
                    ..s
                })
                &&& a.len() == 1
                &&& a[0] is Unregister
            },
        },
        Message::BindAddressChanged(b) => t == (State { bind_address: b, ..s }) && a.len() == 0,
        Message::PortChanged(p) => {
            &&& a.len() == 0
            &&& t == (if short_digits(p@) { State { port: p, ..s } } else { s })
        },
        Message::DiscoverableToggled(v) => if s.running {
            t == (State { discoverable: v, registration: None, ..s }) && renews_registration(t, a)
        } else {
            t == (State { discoverable: v, ..s }) && a.len() == 0
        },
        Message::RequireAuthToggled(v) => t == (State { require_auth: v, ..s }) && a.len() == 0,
        Message::PassphraseChanged(p) => t == (State { passphrase: p, ..s }) && a.len() == 0,
        Message::IconChanged(c) => t == (State { icon: c, ..s }) && a.len() == 0,
        Message::NameChanged(n) => t == (State { name: n, ..s }) && a.len() == 0,
        Message::KeyTimeoutChanged(v) => {
            t == (State { key_timeout_ms: ((v / 50) * 50) as u16, ..s }) && a.len() == 0
        },
        Message::EncryptUdpToggled(v) => t == (State { encrypt_udp: v, ..s }) && a.len() == 0,
        Message::Registered(r) => if s.running && s.discoverable {
            t == (State { registration: r, ..s }) && a.len() == 0
        } else {
            &&& t == (State { registration: None, ..s })
            &&& if r is Some {
                a.len() == 1 && a[0] is Unregister
            } else {
                a.len() == 0
            }
        },
    }
}

/// The server holds a registration only while it runs and is discoverable.
pub open spec fn server_wf(s: State) -> bool {
    s.registration is Some ==> s.running && s.discoverable
}

/// Every message keeps the server's state well formed: in particular a
/// stopped server holds no registration.
pub proof fn lemma_server_wf_kept(s: State, m: Message, t: State, a: Seq<ServerAction>)
    requires
        server_wf(s),
        server_next(s, m, t, a),
    ensures
        server_wf(t),
{
}

/// The texts of a list of strings.
pub open spec fn texts(v: Seq<String>) -> Seq<Seq<char>> {
    v.map_values(|t: String| t@)
}

/// The text occurs in the list.
pub open spec fn lists(v: Seq<String>, s: Seq<char>) -> bool {
    exists|i: int| 0 <= i < v.len() && #[trigger] v[i]@ == s
}

/// Whether the list holds the text.
fn contains_text(v: &Vec<String>, s: &str) -> (r: bool)
    ensures
        r == lists(v@, s@),
{
    let mut i: usize = 0;
    while i < v.len()
        invariant
            i <= v@.len(),
            forall|k: int| 0 <= k < i ==> #[trigger] v@[k]@ != s@,
        decreases v@.len() - i,
    {
        if str_eq(v[i].as_str(), s) {
            return true;
        }
        i += 1;
    }
    false
}

/// The port that the port field gives.
fn port_of(port: &String) -> (p: u16)
    ensures
        p == port_value(port@),
{
    match parse_uint(port.as_str(), 65535) {
        Some(v) => v as u16,
        None => DEFAULT_PORT,
    }
}

impl State {
    /// The state for saved settings, not running, on the status page. The
    /// bind address is the saved one, or all interfaces where none was
    /// saved; the choices offered are all interfaces, then the addresses of
    /// the machine's interfaces, then the bind address where it is none of
    /// those.
    pub fn from_config(cfg: &ServerConfig, interface_addr_texts: &Vec<String>) -> (s: Self)
        ensures
            s.page == Page::Status,
            !s.running,
            s.bind_address@ == (if cfg.bind_address@.len() == 0 { "0.0.0.0"@ } else { cfg.bind_address@ }),
            ({
                let base = seq!["0.0.0.0"@] + texts(interface_addr_texts@);
                let opts = texts(s.bind_options@);
                opts == (if base.contains(s.bind_address@) { base } else { base.push(s.bind_address@) })
            }),
            s.port@ == cfg.port@,
            s.discoverable == cfg.discoverable,
            s.require_auth == cfg.require_auth,
            s.passphrase@.len() == 0,
            s.passphrase_hash@ == cfg.passphrase_hash@,
            s.icon == cfg.icon,
            s.name@ == cfg.name@,
            s.key_timeout_ms == cfg.key_timeout_ms,
            s.encrypt_udp == cfg.encrypt_udp,
            s.active_config is None,
            s.registration is None,
            s.last_error is None,
            server_wf(s),
    {
        let bind_address = if cfg.bind_address.as_str().unicode_len() == 0 {
            "0.0.0.0".to_string()
        } else {
            cfg.bind_address.clone()
        };
        let mut opts = bind_options(interface_addr_texts);
        let ghost base = seq!["0.0.0.0"@] + texts(interface_addr_texts@);
        assert(texts(opts@) =~= base) by {
            assert forall|i: int| 0 <= i < base.len() implies #[trigger] texts(opts@)[i] == base[i] by {
                if i > 0 {
                    assert(opts@[(i - 1) + 1]@ == interface_addr_texts@[i - 1]@);
                }
            }
        }
        let listed = contains_text(&opts, bind_address.as_str());
        proof {
            if listed {
                let i = choose|i: int| 0 <= i < opts@.len() && #[trigger] opts@[i]@ == bind_address@;
                assert(base[i] == bind_address@);
            } else {
                assert forall|i: int| 0 <= i < base.len() implies base[i] != bind_address@ by {
                    assert(opts@[i]@ == base[i]);
                }
            }
        }
        if !listed {
            opts.push(bind_address.clone());
        }
        let s = State {
            page: Page::Status,
            running: false,
            bind_address,
            bind_options: opts,
            port: cfg.port.clone(),
            discoverable: cfg.discoverable,
            require_auth: cfg.require_auth,
            passphrase: String::new(),
            passphrase_hash: cfg.passphrase_hash.clone(),
            icon: cfg.icon,
            name: cfg.name.clone(),
            active_config: None,
            registration: None,
            key_timeout_ms: cfg.key_timeout_ms,
            last_error: None,
            encrypt_udp: cfg.encrypt_udp,
        };
        assert(texts(s.bind_options@) =~= (if base.contains(s.bind_address@) {
            base
        } else {
            base.push(s.bind_address@)
        }));
        s
    }

    /// The settings to save.
    pub fn to_config(&self) -> (c: ServerConfig)
        ensures
            c.name@ == self.name@,
            c.icon == self.icon,
            c.bind_address@ == self.bind_address@,
            c.port@ == self.port@,
            c.discoverable == self.discoverable,
            c.require_auth == self.require_auth,
            c.passphrase_hash@ == self.passphrase_hash@,
            c.key_timeout_ms == self.key_timeout_ms,
            c.encrypt_udp == self.encrypt_udp,
    {
        ServerConfig {
            name: self.name.clone(),
            icon: self.icon,
            bind_address: self.bind_address.clone(),
            port: self.port.clone(),
            discoverable: self.discoverable,
            require_auth: self.require_auth,
            passphrase_hash: self.passphrase_hash.clone(),
            key_timeout_ms: self.key_timeout_ms,
            encrypt_udp: self.encrypt_udp,
        }
    }

    /// The settings as they stand.
    fn snapshot(&self) -> (c: RunningConfig)
        ensures
            records_settings(c, *self),
    {
        RunningConfig {
            bind_address: self.bind_address.clone(),
            port: self.port.clone(),
            discoverable: self.discoverable,
            require_auth: self.require_auth,
            passphrase_hash: self.passphrase_hash.clone(),
            name: self.name.clone(),
            icon: self.icon,
            key_timeout_ms: self.key_timeout_ms,
            encrypt_udp: self.encrypt_udp,
        }
    }

    /// Whether the server runs.
    pub fn is_running(&self) -> (b: bool)
        ensures
            b == self.running,
    {
        self.running
    }

    /// Whether a restart would change something: the server runs with
    /// other settings than those shown, or a new passphrase waits.
    pub fn settings_changed(&self) -> (b: bool)
        ensures
            b == settings_differ(*self),
    {
        if !self.running {
            return false;
        }
        let config_changed = match &self.active_config {
            Some(c) => !(str_eq(c.bind_address.as_str(), self.bind_address.as_str())
                && str_eq(c.port.as_str(), self.port.as_str())
                && c.discoverable == self.discoverable
                && c.require_auth == self.require_auth
                && str_eq(c.passphrase_hash.as_str(), self.passphrase_hash.as_str())
                && str_eq(c.name.as_str(), self.name.as_str())
                && c.icon == self.icon
                && c.key_timeout_ms == self.key_timeout_ms
                && c.encrypt_udp == self.encrypt_udp),
            None => false,
        };
        config_changed || self.passphrase.as_str().unicode_len() > 0
    }

    /// Whether this server's own registration has the full service name.
    pub fn owns_fullname(&self, fullname: &str) -> (b: bool)
        ensures
            b == (self.registration matches Some(r) && r.fullname_spec() == fullname@),
            server_wf(*self) && !self.running ==> !b,
    {
        match &self.registration {
            Some(r) => str_eq(r.fullname(), fullname),
            None => false,
        }
    }

    /// How to bind the listener: on the bind address (all interfaces where
    /// it is empty) and the port the field gives, with the server's key
    /// timeout, authentication and encryption settings.
    pub fn listen_request(&self) -> (r: ListenRequest)
        ensures
            r.address@ == (if self.bind_address@.len() == 0 { "0.0.0.0"@ } else { self.bind_address@ }),
            r.port == port_value(self.port@),
            r.key_timeout_ms == self.key_timeout_ms,
            r.require_auth == self.require_auth,
            r.passphrase_hash@ == self.passphrase_hash@,
            r.encrypt_udp == self.encrypt_udp,
    {
        let address = if self.bind_address.as_str().unicode_len() == 0 {
            "0.0.0.0".to_string()
        } else {
            self.bind_address.clone()
        };
        ListenRequest {
            address,
            port: port_of(&self.port),
            key_timeout_ms: self.key_timeout_ms,
            require_auth: self.require_auth,
            passphrase_hash: self.passphrase_hash.clone(),
            encrypt_udp: self.encrypt_udp,
        }
    }

    /// Withdraw the registration, and advertise anew where the server runs
    /// and is discoverable.
    fn refresh_registration(&mut self) -> (a: Vec<ServerAction>)
        ensures
            *final(self) == (State { registration: None, ..*old(self) }),
            renews_registration(*final(self), a@),
    {
        self.registration = None;
        let mut a: Vec<ServerAction> = Vec::new();
        a.push(ServerAction::Unregister);
        if self.running && self.discoverable {
            let r = RegistrationRequest {
                name: self.name.clone(),
                port: port_of(&self.port),
                bind_address: self.bind_address.clone(),
                icon: self.icon,
                require_auth: self.require_auth,
                encrypt_udp: self.encrypt_udp,
            };
            a.push(ServerAction::Register(r));
        }
        a
    }

    /// The server started with the settings shown.
    fn on_started(&mut self) -> (a: Vec<ServerAction>)
        ensures
            started(*old(self), *final(self), a@),
            final(self).running == old(self).running,
    {
        let c = self.snapshot();
        self.active_config = Some(c);
        self.last_error = None;
        self.refresh_registration()
    }

    /// Apply a message; the actions it asks for, in order.
    pub fn update(&mut self, m: Message) -> (a: Vec<ServerAction>)
        ensures
            server_next(*old(self), m, *final(self), a@),
            server_wf(*old(self)) ==> server_wf(*final(self)),
    {
        match m {
            Message::SelectPage(p) => {
                if self.page == Page::Security && p != Page::Security
                    && self.passphrase.as_str().unicode_len() > 0 {
                    let h = hash_passphrase(self.passphrase.as_str());
                    self.passphrase_hash = h;
                    self.passphrase = String::new();
                }
                self.page = p;
                Vec::new()
            },
            Message::StartServer(error) => match error {
                None => {
                    self.running = true;
                    self.on_started()
                },
                Some(e) => {
                    self.last_error = Some(e);
                    Vec::new()
                },
            },
            Message::StopServer => {
                self.running = false;
                self.active_config = None;
                self.registration = None;
                self.last_error = None;
                let mut a: Vec<ServerAction> = Vec::new();
                a.push(ServerAction::CloseListener);
                a.push(ServerAction::Unregister);
                a
            },
            Message::RestartServer(error) => match error {
                None => self.on_started(),
                Some(e) => {
                    self.running = false;
                    self.active_config = None;
                    self.registration = None;
                    self.last_error = Some(e);
                    let mut a: Vec<ServerAction> = Vec::new();
                    a.push(ServerAction::Unregister);
                    a
                },
            },
            Message::BindAddressChanged(b) => {
                self.bind_address = b;
                Vec::new()
            },
            Message::PortChanged(p) => {
                if is_short_digits(p.as_str()) {
                    self.port = p;
                }
                Vec::new()
            },
            Message::DiscoverableToggled(v) => {
                self.discoverable = v;
                if self.running {
                    self.refresh_registration()
                } else {
                    Vec::new()
                }
            },
            Message::RequireAuthToggled(v) => {
                self.require_auth = v;
                Vec::new()
            },
            Message::PassphraseChanged(p) => {
                self.passphrase = p;
                Vec::new()
            },
            Message::IconChanged(c) => {
                self.icon = c;
                Vec::new()
            },
            Message::NameChanged(n) => {
                self.name = n;
                Vec::new()
            },
            Message::KeyTimeoutChanged(v) => {
                self.key_timeout_ms = (v / 50) * 50;
                Vec::new()
            },
            Message::EncryptUdpToggled(v) => {
                self.encrypt_udp = v;
                Vec::new()
            },
            Message::Registered(r) => {
                if self.running && self.discoverable {
                    self.registration = r;
                    Vec::new()
                } else {
                    self.registration = None;
                    let mut a: Vec<ServerAction> = Vec::new();
                    if r.is_some() {
                        a.push(ServerAction::Unregister);
                    }
                    a
                }
            },
        }
    }
}

/// The warning under the server's status, if any.
#[derive(Debug, Clone, Copy, PartialEq, Eq, Structural)]
pub enum StatusNotice {
    Nothing,
    /// A client connection runs: it must be closed before the server starts.
    DisconnectClient,
    /// Authentication is required but no passphrase is set.
    SetPassphrase,
}

/// What the status page shows.
#[derive(Debug, Clone)]
pub struct StatusView {
    pub label: String,
    pub tone: Tone,
    pub icon: Option<char>,
    /// Where the server listens, shown while it runs.
    pub endpoint: Option<String>,
    pub notice: StatusNotice,
    /// The server runs: it can be stopped.
    pub can_stop: bool,
    /// The server is stopped and may be started.
    pub can_start: bool,
    /// A restart would apply changed settings.
    pub offers_restart: bool,
    pub error: Option<String>,
}

/// Authentication is required but there is no passphrase, new or saved.
pub open spec fn passphrase_missing(s: State) -> bool {
    s.require_auth && s.passphrase@.len() == 0 && s.passphrase_hash@.len() == 0
}

/// The running server asks for a passphrase and encrypts: by the settings
/// it runs with, or those shown where it records none.
pub open spec fn runs_secured(s: State) -> bool {
    match s.active_config {
        Some(c) => c.require_auth && c.encrypt_udp,
        None => s.require_auth && s.encrypt_udp,
    }
}

/// The status line: `Listening` where the running server asks for a
/// passphrase and encrypts, `Listening (...)` naming what it does not do,
/// `Stopped` where it does not run.
pub open spec fn status_label(s: State) -> Seq<char> {
    let auth = match s.active_config {
        Some(c) => c.require_auth,
        None => s.require_auth,
    };
    let enc = match s.active_config {
        Some(c) => c.encrypt_udp,
        None => s.encrypt_udp,
    };
    if !s.running {
        "Stopped"@
    } else if auth && enc {
        "Listening"@
    } else if !enc && !auth {
        "Listening (encryption disabled, no passphrase required)"@
    } else if !enc {
        "Listening (encryption disabled)"@
    } else {
        "Listening (no passphrase required)"@
    }
}

impl State {
    /// What the status page shows, given whether a client connection runs.
    pub fn status_view(&self, client_connected: bool) -> (v: StatusView)
        ensures
            v.label@ == status_label(*self),
            v.tone == (if !self.running {
                Tone::Neutral
            } else if runs_secured(*self) {
                Tone::Success
            } else {
                Tone::Danger
            }),
            v.icon == (if !self.running {
                None
            } else if runs_secured(*self) {
                Some(icons::LOCK)
            } else {
                Some(icons::TRIANGLE_EXCLAMATION)
            }),
            match v.endpoint {
                Some(e) => self.running && e@ == endpoint_text(
                    match self.active_config {
                        Some(c) => c.bind_address@,
                        None => self.bind_address@,
                    },
                    port_value(self.port@),
                ),
                None => !self.running,
            },
            v.notice == (if client_connected && !self.running {
                StatusNotice::DisconnectClient
            } else if passphrase_missing(*self) {
                StatusNotice::SetPassphrase
            } else {
                StatusNotice::Nothing
            }),
            v.can_stop == self.running,
            v.can_start == (!self.running && !passphrase_missing(*self) && !client_connected),
            v.offers_restart == settings_differ(*self),
            opt_same(v.error, self.last_error),
    {
        proof {
            reveal_strlit("Listening");
            reveal_strlit("Stopped");
            reveal_strlit("Listening (encryption disabled, no passphrase required)");
            reveal_strlit("Listening (encryption disabled)");
            reveal_strlit("Listening (no passphrase required)");
        }
        let auth = match &self.active_config {
            Some(c) => c.require_auth,
            None => self.require_auth,
        };
        let enc = match &self.active_config {
            Some(c) => c.encrypt_udp,
            None => self.encrypt_udp,
        };
        let secure = self.running && auth && enc;
        let label = if !self.running {
            "Stopped"
        } else if auth && enc {
            "Listening"
        } else if !enc && !auth {
            "Listening (encryption disabled, no passphrase required)"
        } else if !enc {
            "Listening (encryption disabled)"
        } else {
            "Listening (no passphrase required)"
        };
        let (tone, icon) = if !self.running {
            (Tone::Neutral, None)
        } else if secure {
            (Tone::Success, Some(icons::LOCK))
        } else {
            (Tone::Danger, Some(icons::TRIANGLE_EXCLAMATION))
        };
        let missing = self.require_auth && self.passphrase.as_str().unicode_len() == 0
            && self.passphrase_hash.as_str().unicode_len() == 0;
        let endpoint = if self.running {
            let port = port_of(&self.port);
            Some(match &self.active_config {
                Some(c) => display_endpoint(c.bind_address.as_str(), port),
                None => display_endpoint(self.bind_address.as_str(), port),
            })
        } else {
            None
        };
        let notice = if client_connected && !self.running {
            StatusNotice::DisconnectClient
        } else if missing {
            StatusNotice::SetPassphrase
        } else {
            StatusNotice::Nothing
        };
        StatusView {
            label: label.to_string(),
            tone,
            icon,
            endpoint,
            notice,
            can_stop: self.running,
            can_start: !self.running && !missing && !client_connected,
            offers_restart: self.settings_changed(),
            error: copy_text(&self.last_error),
        }
    }

    /// What the security page says of the passphrase where authentication
    /// is required and no new one is typed: whether one is saved.
    pub fn passphrase_is_set(&self) -> (b: Option<bool>)
        ensures
            b == (if self.require_auth && self.passphrase@.len() == 0 {
                Some(self.passphrase_hash@.len() > 0)
            } else {
                None
            }),
    {
        if self.require_auth && self.passphrase.as_str().unicode_len() == 0 {
            Some(self.passphrase_hash.as_str().unicode_len() > 0)
        } else {
            None
        }
    }
}

/// Two optional strings hold the same text.
pub open spec fn opt_same(a: Option<String>, b: Option<String>) -> bool {
    match (a, b) {
        (Some(x), Some(y)) => x@ == y@,
        (None, None) => true,
        _ => false,
    }
}

/// A copy of an optional string.
pub fn copy_text(o: &Option<String>) -> (r: Option<String>)
    ensures
        opt_same(r, *o),
{
    match o {
        Some(s) => Some(s.clone()),
        None => None,
    }
}

/// Starting or restarting the server successfully applies the settings
/// shown: afterwards a restart would change nothing, unless a new
/// passphrase waits to be hashed.
pub proof fn lemma_start_settles(s: State, m: Message, t: State, a: Seq<ServerAction>)
    requires
        m matches Message::StartServer(None) || m matches Message::RestartServer(None),
        server_next(s, m, t, a),
        t.running,
    ensures
        settings_differ(t) <==> s.passphrase@.len() > 0,
{
}

} // verus!
