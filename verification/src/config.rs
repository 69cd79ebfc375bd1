//! Persistent settings, their defaults, and passphrase hashing.

use vstd::prelude::*;
use vstd::string::StringExecFns;
use vstd::utf8::encode_utf8;
use argon2::{Argon2, PasswordHasher};
use argon2::password_hash::{PasswordHash, SaltString};
use rand_core::OsRng;

use crate::icons;
use crate::assoc::{assoc_map, distinct_keys, lemma_assoc_contains, lemma_assoc_update, lemma_assoc_value};
use crate::cert::{format_fingerprint, hex_bytes, hex_text, parse_fingerprint};
use crate::text::{decimal, push_decimal, str_eq};

verus! {

/// Whether the application acts as a client or as a server.
#[derive(Debug, Clone, Copy, PartialEq, Eq, Structural)]
pub enum Mode {
    Client,
    Server,
}

impl Default for Mode {
    fn default() -> (m: Self)
        ensures
            m == Mode::Client,
    {
        Mode::Client
    }
}

/// The icon a server advertises.
#[derive(Debug, Clone, Copy, PartialEq, Eq, Structural)]
pub enum ServerIcon {
    Desktop,
    Laptop,
    Server,
}

impl Default for ServerIcon {
    fn default() -> (i: Self)
        ensures
            i == ServerIcon::Desktop,
    {
        ServerIcon::Desktop
    }
}

/// The glyph shown for each server icon.
pub open spec fn icon_glyph(i: ServerIcon) -> char {
    match i {
        ServerIcon::Desktop => icons::DESKTOP,
        ServerIcon::Laptop => icons::LAPTOP,
        ServerIcon::Server => icons::SERVER,
    }
}

impl ServerIcon {
    pub const ALL: [ServerIcon; 3] = [ServerIcon::Desktop, ServerIcon::Laptop, ServerIcon::Server];

    pub fn glyph(self) -> (c: char)
        ensures
            c == icon_glyph(self),
    {
        match self {
            ServerIcon::Desktop => icons::DESKTOP,
            ServerIcon::Laptop => icons::LAPTOP,
            ServerIcon::Server => icons::SERVER,
        }
    }
}

/// How the client captures input: the whole screen with relative mouse
/// motion, or only its window with absolute positions.
#[derive(Debug, Clone, Copy, PartialEq, Eq, Structural)]
pub enum CaptureMode {
    Fullscreen,
    Window,
}

impl Default for CaptureMode {
    fn default() -> (m: Self)
        ensures
            m == CaptureMode::Fullscreen,
    {
        CaptureMode::Fullscreen
    }
}

impl CaptureMode {
    /// The text shown for the mode.
    pub fn label(&self) -> (s: &'static str)
        ensures
            s@ == (match *self {
                CaptureMode::Fullscreen => "Fullscreen (relative mouse)"@,
                CaptureMode::Window => "Window only (absolute mouse)"@,
            }),
    {
        match self {
            CaptureMode::Fullscreen => "Fullscreen (relative mouse)",
            CaptureMode::Window => "Window only (absolute mouse)",
        }
    }
}

// ---------------------------------------------------------------------------
// Passphrase hashing (Argon2id, PHC strings)
// ---------------------------------------------------------------------------

/// The parts of a PHC string as `password_hash::PasswordHash::new` parses
/// them: the salt text and the hash output bytes, each if present; `None`
/// when the string does not parse.
pub uninterp spec fn phc_parts(phc: Seq<char>) -> Option<(Option<Seq<char>>, Option<Seq<u8>>)>;

/// The PHC string that `Argon2::default().hash_password` produces for a
/// passphrase and a B64 salt; `None` when the salt is refused or hashing fails.
pub uninterp spec fn argon2_phc(passphrase: Seq<char>, salt: Seq<char>) -> Option<Seq<char>>;

/// The salt recorded in a PHC string.
pub open spec fn phc_salt(phc: Seq<char>) -> Option<Seq<char>> {
    match phc_parts(phc) {
        Some((Some(s), _)) => Some(s),
        _ => None,
    }
}

/// The hash output recorded in a PHC string.
pub open spec fn phc_hash(phc: Seq<char>) -> Option<Seq<u8>> {
    match phc_parts(phc) {
        Some((_, Some(h))) => Some(h),
        _ => None,
    }
}

/// `PasswordHash::new(phc)`, keeping the salt as text and the hash output as
/// bytes. The result is named by `phc_parts`.
#[verifier::external_body]
pub(crate) fn parse_phc(phc: &str) -> (r: Option<(Option<String>, Option<Vec<u8>>)>)
    ensures
        match r {
            None => phc_parts(phc@) is None,
            Some((s, h)) => phc_parts(phc@) == Some(
                (
                    match s {
                        Some(t) => Some(t@),
                        None => None,
                    },
                    match h {
                        Some(b) => Some(b@),
                        None => None,
                    },
                ),
            ),
        },
{
    let parsed = PasswordHash::new(phc).ok()?;
    Some((parsed.salt.map(|s| s.as_str().to_string()), parsed.hash.map(|h| h.as_bytes().to_vec())))
}

/// `SaltString::from_b64(salt)` then `Argon2::default().hash_password`, as a
/// PHC string (named by `argon2_phc`). The PHC string that the crate writes
/// starts with the `$` before the algorithm's name and records the salt it
/// was given and the hash output, so parsing it gives that salt and some hash
/// output back.
#[verifier::external_body]
fn argon2_hash(passphrase: &str, salt: &str) -> (r: Option<String>)
    ensures
        match r {
            Some(h) => argon2_phc(passphrase@, salt@) == Some(h@) && phc_salt(h@) == Some(salt@)
                && phc_hash(h@) is Some && h@.len() > 0 && h@[0] == '$',
            None => argon2_phc(passphrase@, salt@) is None,
        },
{
    let salt = SaltString::from_b64(salt).ok()?;
    Argon2::default().hash_password(passphrase.as_bytes(), &salt).map(|h| h.to_string()).ok()
}

/// A fresh random B64 salt from `SaltString::generate(&mut OsRng)`. Which
/// salt comes out is left open; every outcome is the unpadded B64 text of 16
/// random bytes, 22 characters, which `SaltString::from_b64` accepts and
/// which decodes to 16 bytes, within Argon2's salt limits. So hashing under
/// it fails only for a passphrase over Argon2's limit of `0xFFFF_FFFF` bytes,
/// and the PHC string it gives records that salt and a hash output, as for
/// `argon2_hash`.
#[verifier::external_body]
fn random_salt() -> (s: String)
    ensures
        s@.len() == 22,
        salt_hashes_all(s@),
{
    SaltString::generate(&mut OsRng).as_str().to_string()
}

/// Every passphrase within Argon2's length limit hashes under the salt, to a
/// PHC string that records the salt and a hash output.
pub open spec fn salt_hashes_all(salt: Seq<char>) -> bool {
    forall|p: Seq<char>|
        encode_utf8(p).len() <= 0xFFFF_FFFF ==> (#[trigger] argon2_phc(p, salt) matches Some(q)
            && phc_salt(q) == Some(salt) && phc_hash(q) is Some)
}

/// `h` is the PHC string of `passphrase` under a salt that every passphrase
/// within Argon2's length limit hashes under, or empty where hashing fails,
/// which happens only for a passphrase over that limit.
pub open spec fn hashed_passphrase(passphrase: Seq<char>, h: Seq<char>) -> bool {
    &&& exists|salt: Seq<char>|
        salt_hashes_all(salt) && match #[trigger] argon2_phc(passphrase, salt) {
            Some(p) => h == p && phc_salt(p) == Some(salt) && phc_hash(p) is Some,
            None => h == Seq::<char>::empty(),
        }
    &&& encode_utf8(passphrase).len() <= 0xFFFF_FFFF ==> h.len() > 0
}

/// Hash a passphrase with Argon2id under a fresh random salt, as a PHC
/// string; the empty string if hashing fails.
pub fn hash_passphrase(passphrase: &str) -> (h: String)
    ensures
        hashed_passphrase(passphrase@, h@),
{
    let salt = random_salt();
    match argon2_hash(passphrase, salt.as_str()) {
        Some(h) => h,
        None => String::new(),
    }
}

/// The salt of a PHC string.
pub fn extract_salt(hash: &str) -> (r: Option<String>)
    ensures
        match r {
            Some(s) => phc_salt(hash@) == Some(s@),
            None => phc_salt(hash@) is None,
        },
{
    match parse_phc(hash) {
        Some((Some(s), _)) => Some(s),
        _ => None,
    }
}

/// Hash a passphrase with Argon2id under a given B64 salt, as a PHC string.
pub fn hash_passphrase_with_salt(passphrase: &str, salt: &str) -> (r: Option<String>)
    ensures
        match r {
            Some(h) => argon2_phc(passphrase@, salt@) == Some(h@) && phc_salt(h@) == Some(salt@)
                && phc_hash(h@) is Some,
            None => argon2_phc(passphrase@, salt@) is None,
        },
{
    argon2_hash(passphrase, salt)
}

// ---------------------------------------------------------------------------
// Settings
// ---------------------------------------------------------------------------

/// The machine's host name, read with `hostname::get` and kept when it is
/// valid Unicode. It depends on the machine, so nothing is stated of it.
#[verifier::external_body]
fn machine_hostname() -> Option<String> {
    hostname::get().ok().and_then(|h| h.into_string().ok())
}

/// The default server name for a host name as it was read: the host name,
/// or `spud-server` where none could be read.
pub open spec fn host_or_default(host: Option<Seq<char>>) -> Seq<char> {
    match host {
        Some(h) => h,
        None => "spud-server"@,
    }
}

/// The default server name for a host name as it was read.
pub fn name_or_default(host: Option<String>) -> (s: String)
    ensures
        s@ == host_or_default(match host {
            Some(h) => Some(h@),
            None => None,
        }),
{
    match host {
        Some(h) => h,
        None => "spud-server".to_string(),
    }
}

/// The name a server advertises by default: the machine's host name, or
/// `spud-server` when it cannot be read.
pub fn default_hostname() -> (s: String) {
    name_or_default(machine_hostname())
}

/// Server settings.
#[derive(Debug, Clone, PartialEq)]
pub struct ServerConfig {
    pub name: String,
    pub icon: ServerIcon,
    pub bind_address: String,
    pub port: String,
    pub discoverable: bool,
    pub require_auth: bool,
    pub passphrase_hash: String,
    pub key_timeout_ms: u16,
    pub encrypt_udp: bool,
}

impl Default for ServerConfig {
    /// Desktop icon, all interfaces on port 7878, discoverable, with
    /// authentication and encryption, a one-second key timeout, and the
    /// machine's host name as the name.
    fn default() -> (c: Self)
        ensures
            c.icon == ServerIcon::Desktop,
            c.bind_address@ == "0.0.0.0"@,
            c.port@ == "7878"@,
            c.discoverable,
            c.require_auth,
            c.passphrase_hash@ == Seq::<char>::empty(),
            c.key_timeout_ms == 1000,
            c.encrypt_udp,
    {
        let c = ServerConfig {
            name: default_hostname(),
            icon: ServerIcon::Desktop,
            bind_address: "0.0.0.0".to_string(),
            port: "7878".to_string(),
            discoverable: true,
            require_auth: true,
            passphrase_hash: String::new(),
            key_timeout_ms: 1000,
            encrypt_udp: true,
        };
        c
    }
}

/// Client settings.
#[derive(Debug, Clone, PartialEq)]
pub struct ClientConfig {
    pub host: String,
    pub port: String,
    pub sensitivity: String,
    pub natural_scroll: bool,
    pub capture_mode: CaptureMode,
    pub hotkey: String,
    pub require_auth: bool,
    pub passphrase_hash: String,
    pub keepalive_interval_ms: u16,
    pub reconnect_timeout_secs: u16,
    pub blank_screen: bool,
    pub show_hotkey_on_blank: bool,
    pub encrypt_udp: bool,
    pub mouse_batch_size: u8,
    pub batch_redundancy: u8,
    pub udp_drop_percent: u8,
}

impl Default for ClientConfig {
    /// No host, port 7878, sensitivity 1.00, full-screen capture toggled
    /// with Ctrl+Alt+Space, authentication and encryption on, keepalive
    /// every 100 ms, reconnection for 30 s, batches of 8 events without
    /// redundancy, no simulated loss.
    fn default() -> (c: Self)
        ensures
            c.host@ == Seq::<char>::empty(),
            c.port@ == "7878"@,
            c.sensitivity@ == "1.00"@,
            !c.natural_scroll,
            c.capture_mode == CaptureMode::Fullscreen,
            c.hotkey@ == "Ctrl+Alt+Space"@,
            c.require_auth,
            c.passphrase_hash@ == Seq::<char>::empty(),
            c.keepalive_interval_ms == 100,
            c.reconnect_timeout_secs == 30,
            !c.blank_screen,
            c.show_hotkey_on_blank,
            c.encrypt_udp,
            c.mouse_batch_size == 8,
            c.batch_redundancy == 0,
            c.udp_drop_percent == 0,
    {
        ClientConfig {
            host: String::new(),
            port: "7878".to_string(),
            sensitivity: "1.00".to_string(),
            natural_scroll: false,
            capture_mode: CaptureMode::Fullscreen,
            hotkey: "Ctrl+Alt+Space".to_string(),
            require_auth: true,
            passphrase_hash: String::new(),
            keepalive_interval_ms: 100,
            reconnect_timeout_secs: 30,
            blank_screen: false,
            show_hotkey_on_blank: true,
            encrypt_udp: true,
            mouse_batch_size: 8,
            batch_redundancy: 0,
            udp_drop_percent: 0,
        }
    }
}

/// All settings: the mode and the settings of each side.
#[derive(Debug, Clone, PartialEq)]
pub struct Config {
    pub mode: Mode,
    pub client: ClientConfig,
    pub server: ServerConfig,
}

impl Default for Config {
    /// Client mode with default client and server settings.
    fn default() -> (c: Self)
        ensures
            c.mode == Mode::Client,
            c.client.port@ == "7878"@,
            c.server.port@ == "7878"@,
    {
        Config { mode: Mode::default(), client: ClientConfig::default(), server: ServerConfig::default() }
    }
}

// ---------------------------------------------------------------------------
// Trusted servers
// ---------------------------------------------------------------------------

/// The key under which a server's fingerprint is remembered: `host:port`.
pub open spec fn server_key_text(host: Seq<char>, port: u16) -> Seq<char> {
    host + ":"@ + decimal(port as nat)
}

/// The key under which a server's fingerprint is remembered.
pub fn server_key(host: &str, port: u16) -> (k: String)
    ensures
        k@ == server_key_text(host@, port),
{
    let mut k = host.to_string();
    k.append(":");
    push_decimal(&mut k, port as u64);
    k
}

/// The remembered server fingerprints: each key with its hexadecimal
/// fingerprint, no key twice.
#[derive(Debug, Clone, PartialEq)]
pub struct KnownServers {
    entries: Vec<(String, String)>,
}

pub open spec fn pairs_view(v: Seq<(String, String)>) -> Seq<(Seq<char>, Seq<char>)> {
    v.map_values(|e: (String, String)| (e.0@, e.1@))
}

impl View for KnownServers {
    type V = Map<Seq<char>, Seq<char>>;

    closed spec fn view(&self) -> Map<Seq<char>, Seq<char>> {
        assoc_map(pairs_view(self.entries@))
    }
}

impl KnownServers {
    /// Entries without a repeated key.
    pub closed spec fn wf(&self) -> bool {
        distinct_keys(pairs_view(self.entries@))
    }

    /// No server remembered.
    pub fn new() -> (k: Self)
        ensures
            k.wf(),
            k@ == Map::<Seq<char>, Seq<char>>::empty(),
    {
        KnownServers { entries: Vec::new() }
    }

    fn find(&self, key: &str) -> (r: Option<usize>)
        requires
            self.wf(),
        ensures
            match r {
                Some(i) => i < self.entries@.len() && self.entries@[i as int].0@ == key@,
                None => !self@.contains_key(key@),
            },
    {
        let mut i: usize = 0;
        while i < self.entries.len()
            invariant
                i <= self.entries@.len(),
                forall|j: int| 0 <= j < i ==> self.entries@[j].0@ != key@,
            decreases self.entries@.len() - i,
        {
            if str_eq(self.entries[i].0.as_str(), key) {
                return Some(i);
            }
            i += 1;
        }
        proof {
            let p = pairs_view(self.entries@);
            lemma_assoc_contains(p, key@);
            if self@.contains_key(key@) {
                let j = choose|j: int| 0 <= j < p.len() && p[j].0 == key@;
                assert(self.entries@[j].0@ == p[j].0);
            }
        }
        None
    }

    /// The fingerprint text remembered under `key`.
    pub fn get(&self, key: &str) -> (r: Option<&String>)
        requires
            self.wf(),
        ensures
            match r {
                Some(v) => self@.contains_key(key@) && self@[key@] == v@,
                None => !self@.contains_key(key@),
            },
    {
        match self.find(key) {
            Some(i) => {
                proof {
                    lemma_assoc_value(pairs_view(self.entries@), i as int);
                }
                Some(&self.entries[i].1)
            },
            None => None,
        }
    }

    /// Remember `value` under `key`, replacing what was there.
    pub fn insert(&mut self, key: String, value: String)
        requires
            old(self).wf(),
        ensures
            final(self).wf(),
            final(self)@ == old(self)@.insert(key@, value@),
    {
        let ghost p0 = pairs_view(self.entries@);
        match self.find(key.as_str()) {
            Some(i) => {
                let ghost k = self.entries@[i as int].0@;
                self.entries.set(i, (key, value));
                proof {
                    lemma_assoc_update(p0, i as int, value@);
                    assert(pairs_view(self.entries@) =~= p0.update(i as int, (p0[i as int].0, value@)));
                }
            },
            None => {
                proof {
                    lemma_assoc_contains(p0, key@);
                }
                let ghost kv = key@;
                let ghost vv = value@;
                self.entries.push((key, value));
                proof {
                    let p1 = pairs_view(self.entries@);
                    assert(p1 =~= p0.push((kv, vv)));
                    assert(p1.drop_last() =~= p0);
                    assert forall|i: int, j: int| 0 <= i < j < p1.len() implies p1[i].0 != p1[j].0 by {
                        if j == p1.len() - 1 {
                            assert(p0[i].0 == p1[i].0);
                        }
                    }
                }
            },
        }
    }

    /// The remembered entries, in the order they were first remembered.
    pub fn entries(&self) -> (e: &Vec<(String, String)>)
        ensures
            assoc_map(pairs_view(e@)) == self@,
    {
        &self.entries
    }
}

/// Remember a server's certificate fingerprint under `host:port`, in
/// hexadecimal.
pub fn trust_server(known: &mut KnownServers, host: &str, port: u16, fingerprint: [u8; 32])
    requires
        old(known).wf(),
    ensures
        final(known).wf(),
        final(known)@ == old(known)@.insert(server_key_text(host@, port), hex_text(fingerprint@)),
{
    let key = server_key(host, port);
    let value = format_fingerprint(&fingerprint);
    known.insert(key, value);
}

/// The fingerprint remembered for the first of `keys` that has one, if
/// that text holds 32 bytes.
pub open spec fn first_remembered(known: Map<Seq<char>, Seq<char>>, keys: Seq<Seq<char>>) -> Option<Seq<char>>
    decreases keys.len(),
{
    if keys.len() == 0 {
        None
    } else if known.contains_key(keys[0]) {
        Some(known[keys[0]])
    } else {
        first_remembered(known, keys.drop_first())
    }
}

/// The fingerprint a client trusts for a server: the one given, or else
/// the one remembered under the first of the server's addresses that has
/// one, or else under its host name; a remembered text that is not 32
/// bytes of hexadecimal trusts nothing.
pub open spec fn trusted_fingerprint(
    known: Map<Seq<char>, Seq<char>>,
    given: Option<Seq<u8>>,
    address_keys: Seq<Seq<char>>,
    host_key: Seq<char>,
) -> Option<Seq<u8>> {
    match given {
        Some(fp) => Some(fp),
        None => match first_remembered(known, address_keys.push(host_key)) {
            None => None,
            Some(t) => match hex_bytes(t) {
                Some(b) => if b.len() == 32 {
                    Some(b)
                } else {
                    None
                },
                None => None,
            },
        },
    }
}

/// Find the fingerprint to trust for a server, given the `ip:port` keys of
/// its addresses in order and its `host:port` key.
pub fn stored_fingerprint(
    known: &KnownServers,
    given: Option<[u8; 32]>,
    address_keys: &Vec<String>,
    host_key: &str,
) -> (r: Option<[u8; 32]>)
    requires
        known.wf(),
    ensures
        match r {
            Some(fp) => trusted_fingerprint(
                known@,
                match given {
                    Some(g) => Some(g@),
                    None => None,
                },
                address_keys@.map_values(|k: String| k@),
                host_key@,
            ) == Some(fp@),
            None => trusted_fingerprint(
                known@,
                match given {
                    Some(g) => Some(g@),
                    None => None,
                },
                address_keys@.map_values(|k: String| k@),
                host_key@,
            ) is None,
        },
{
    if let Some(fp) = given {
        return Some(fp);
    }
    match remembered_text(known, address_keys, host_key) {
        Some(text) => parse_fingerprint(text.as_str()),
        None => None,
    }
}

/// The text remembered under the first of the keys that has one.
fn remembered_text<'a>(known: &'a KnownServers, address_keys: &Vec<String>, host_key: &str) -> (r: Option<&'a String>)
    requires
        known.wf(),
    ensures
        match r {
            Some(t) => first_remembered(known@, address_keys@.map_values(|k: String| k@).push(host_key@)) == Some(t@),
            None => first_remembered(known@, address_keys@.map_values(|k: String| k@).push(host_key@)) is None,
        },
{
    let ghost keys = address_keys@.map_values(|k: String| k@).push(host_key@);
    assert(keys.skip(0) =~= keys);
    let mut i: usize = 0;
    while i < address_keys.len()
        invariant
            known.wf(),
            i <= address_keys@.len(),
            keys == address_keys@.map_values(|k: String| k@).push(host_key@),
            first_remembered(known@, keys) == first_remembered(known@, keys.skip(i as int)),
        decreases address_keys@.len() - i,
    {
        let r = known.get(address_keys[i].as_str());
        proof {
            assert(keys.skip(i as int)[0] == address_keys@[i as int]@);
            assert(keys.skip(i as int).drop_first() =~= keys.skip(i + 1));
        }
        if r.is_some() {
            return r;
        }
        i += 1;
    }
    proof {
        assert(keys.skip(address_keys@.len() as int) =~= seq![host_key@]);
        assert(seq![host_key@].drop_first() =~= Seq::<Seq<char>>::empty());
        reveal_with_fuel(first_remembered, 2);
    }
    known.get(host_key)
}

} // verus!
