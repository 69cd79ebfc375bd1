//! Client side of a connection: the control-channel handshake, batching of
//! input events, and the UDP datagrams that carry them.

use vstd::prelude::*;
use std::collections::VecDeque;

use crate::config::{hash_passphrase_with_salt, parse_phc, phc_hash, phc_salt, argon2_phc};
use crate::crypto::{encrypt_event, le64_bytes, open_packet, u64_to_le, AEAD_MAX_MESSAGE};
use crate::net::auth::{hmac_sha256, server_expected, server_compute_expected};
use crate::net::protocol::ControlMsg;
use crate::net::{datagram_bytes, history_view, Event};
use crate::text::str_eq;
use crate::cert::{cert_fingerprint, cert_identity, sha256};
use crate::config::{server_key_text, trust_server, KnownServers};
use crate::cert::{hex_text, lemma_fingerprint_roundtrip};
use crate::config::trusted_fingerprint;

verus! {

/// Why a connection attempt was refused during the handshake.
#[derive(Debug, Clone, Copy, PartialEq, Eq, Structural)]
pub enum HandshakeFailure {
    AuthDisabledOnClient,
    NoPassphrase,
    ResponseFailed,
    IncorrectPassword,
    ExpectedSessionInit,
    ServerDoesNotRequirePassphrase,
    ServerRequiresPassphrase,
    ServerDoesNotEncrypt,
    ServerEncrypts,
    NoEncryptionKeys,
}

impl HandshakeFailure {
    /// The message shown to the user.
    pub fn message(&self) -> (s: &'static str)
        ensures
            s@ == (match *self {
                HandshakeFailure::AuthDisabledOnClient => "Server requires authentication but it is disabled on this client"@,
                HandshakeFailure::NoPassphrase => "Authentication required but no passphrase provided"@,
                HandshakeFailure::ResponseFailed => "Authentication error: failed to compute auth response"@,
                HandshakeFailure::IncorrectPassword => "Authentication failed: incorrect password"@,
                HandshakeFailure::ExpectedSessionInit => "Connect failed: expected SessionInit"@,
                HandshakeFailure::ServerDoesNotRequirePassphrase => "Server does not require a passphrase, disable it in Security to connect"@,
                HandshakeFailure::ServerRequiresPassphrase => "Server requires a passphrase, enable it in Security to connect"@,
                HandshakeFailure::ServerDoesNotEncrypt => "This server doesn't use encryption, disable it in Security to connect"@,
                HandshakeFailure::ServerEncrypts => "This server uses encryption, enable it in Security to connect"@,
                HandshakeFailure::NoEncryptionKeys => "Failed to derive encryption keys"@,
            }),
    {
        match self {
            HandshakeFailure::AuthDisabledOnClient => "Server requires authentication but it is disabled on this client",
            HandshakeFailure::NoPassphrase => "Authentication required but no passphrase provided",
            HandshakeFailure::ResponseFailed => "Authentication error: failed to compute auth response",
            HandshakeFailure::IncorrectPassword => "Authentication failed: incorrect password",
            HandshakeFailure::ExpectedSessionInit => "Connect failed: expected SessionInit",
            HandshakeFailure::ServerDoesNotRequirePassphrase => "Server does not require a passphrase, disable it in Security to connect",
            HandshakeFailure::ServerRequiresPassphrase => "Server requires a passphrase, enable it in Security to connect",
            HandshakeFailure::ServerDoesNotEncrypt => "This server doesn't use encryption, disable it in Security to connect",
            HandshakeFailure::ServerEncrypts => "This server uses encryption, enable it in Security to connect",
            HandshakeFailure::NoEncryptionKeys => "Failed to derive encryption keys",
        }
    }

    /// Whether the failure is a refusal of credentials (as opposed to a
    /// malformed or mismatched exchange).
    pub fn is_permission_denied(&self) -> (r: bool)
        ensures
            r == (*self == HandshakeFailure::AuthDisabledOnClient || *self
                == HandshakeFailure::NoPassphrase || *self == HandshakeFailure::IncorrectPassword),
    {
        match self {
            HandshakeFailure::AuthDisabledOnClient | HandshakeFailure::NoPassphrase
            | HandshakeFailure::IncorrectPassword => true,
            _ => false,
        }
    }
}

/// Where the client handshake stands.
#[derive(Debug, Clone, Copy, PartialEq, Eq, Structural)]
pub enum HandshakeStage {
    AwaitFirst,
    AwaitAuthResult,
    AwaitSessionInit,
}

/// What the session parameters announced by the server are.
#[derive(Debug)]
pub struct SessionParams {
    pub conn_id: u64,
    pub server_encrypt: bool,
    pub phc_to_save: Option<String>,
    pub screen_width: u16,
    pub screen_height: u16,
}

/// What the transport must do after a message of the handshake.
#[derive(Debug)]
pub enum HandshakeStep {
    /// Send this message, then wait for the next one.
    Reply(ControlMsg),
    /// Wait for the next message.
    Wait,
    /// The session is established.
    Done(SessionParams),
    /// The connection is refused.
    Fail(HandshakeFailure),
}

/// The client's side of the control-channel handshake.
pub struct ClientHandshake {
    pub stage: HandshakeStage,
    pub require_auth: bool,
    pub passphrase: Option<String>,
    pub saved_phc: Option<String>,
    pub phc_to_save: Option<String>,
}

/// View of an optional string.
pub open spec fn opt_view(o: Option<String>) -> Option<Seq<char>> {
    match o {
        Some(s) => Some(s@),
        None => None,
    }
}

/// The response that a saved PHC string gives for a challenge: its hash
/// output keys the HMAC, when its salt is the one the server sent.
pub open spec fn saved_response(phc: Seq<char>, salt: Seq<char>, nonce: Seq<u8>) -> Option<Seq<u8>> {
    if phc_salt(phc) == Some(salt) {
        server_expected(phc, nonce)
    } else {
        None
    }
}

/// The outcome of checking a message that must be `SessionInit`.
pub open spec fn session_init_outcome(
    require_auth: bool,
    phc_to_save: Option<Seq<char>>,
    msg: ControlMsg,
    r: HandshakeStep,
) -> bool {
    match msg {
        ControlMsg::SessionInit { conn_id, encrypt, auth, screen_width, screen_height, .. } => {
            if require_auth != auth {
                r == HandshakeStep::Fail(
                    if require_auth {
                        HandshakeFailure::ServerDoesNotRequirePassphrase
                    } else {
                        HandshakeFailure::ServerRequiresPassphrase
                    },
                )
            } else {
                r matches HandshakeStep::Done(p) && p.conn_id == conn_id && p.server_encrypt
                    == encrypt && opt_view(p.phc_to_save) == phc_to_save && p.screen_width
                    == screen_width && p.screen_height == screen_height
            }
        },
        _ => r == HandshakeStep::Fail(HandshakeFailure::ExpectedSessionInit),
    }
}

/// The handshake's reaction to a message: the step it asks for and the new
/// stage and PHC string to save.
pub open spec fn handshake_outcome(
    h: ClientHandshake,
    msg: ControlMsg,
    r: HandshakeStep,
    h2: ClientHandshake,
) -> bool {
    &&& h2.require_auth == h.require_auth
    &&& h2.passphrase == h.passphrase
    &&& h2.saved_phc == h.saved_phc
    &&& match (h.stage, msg) {
        (HandshakeStage::AwaitFirst, ControlMsg::AuthChallenge { nonce, salt }) => {
            if !h.require_auth {
                r == HandshakeStep::Fail(HandshakeFailure::AuthDisabledOnClient)
            } else {
                let saved = match h.saved_phc {
                    Some(p) => saved_response(p@, salt@, nonce@),
                    None => None,
                };
                match saved {
                    Some(t) => {
                        &&& r matches HandshakeStep::Reply(ControlMsg::AuthResponse { hmac })
                            && hmac@ == t
                        &&& h2.stage == HandshakeStage::AwaitAuthResult
                        &&& opt_view(h2.phc_to_save) == opt_view(h.saved_phc)
                    },
                    None => match h.passphrase {
                        None => r == HandshakeStep::Fail(HandshakeFailure::NoPassphrase),
                        Some(pass) => {
                            &&& opt_view(h2.phc_to_save) == argon2_phc(pass@, salt@)
                            &&& match argon2_phc(pass@, salt@) {
                                Some(phc) => match phc_hash(phc) {
                                    Some(key) => {
                                        &&& r matches HandshakeStep::Reply(
                                            ControlMsg::AuthResponse { hmac },
                                        ) && hmac@ == hmac_sha256(key, nonce@)
                                        &&& h2.stage == HandshakeStage::AwaitAuthResult
                                    },
                                    None => r == HandshakeStep::Fail(
                                        HandshakeFailure::ResponseFailed,
                                    ),
                                },
                                None => r == HandshakeStep::Fail(HandshakeFailure::ResponseFailed),
                            }
                        },
                    },
                }
            }
        },
        (HandshakeStage::AwaitAuthResult, ControlMsg::AuthResult { ok }) => {
            if ok {
                &&& r == HandshakeStep::Wait
                &&& h2.stage == HandshakeStage::AwaitSessionInit
                &&& opt_view(h2.phc_to_save) == opt_view(h.phc_to_save)
            } else {
                r == HandshakeStep::Fail(HandshakeFailure::IncorrectPassword)
            }
        },
        (_, m) => {
            &&& opt_view(h2.phc_to_save) == opt_view(h.phc_to_save)
            &&& session_init_outcome(h.require_auth, opt_view(h.phc_to_save), m, r)
        },
    }
}

fn clone_opt(o: &Option<String>) -> (r: Option<String>)
    ensures
        opt_view(r) == opt_view(*o),
{
    match o {
        Some(s) => Some(s.clone()),
        None => None,
    }
}

/// The HMAC key of a saved PHC string whose salt is `salt`, as its response.
pub fn saved_phc_response(phc: &str, salt: &str, nonce: &[u8; 32]) -> (r: Option<[u8; 32]>)
    ensures
        match r {
            Some(t) => saved_response(phc@, salt@, nonce@) == Some(t@),
            None => saved_response(phc@, salt@, nonce@) is None,
        },
{
    match parse_phc(phc) {
        Some((Some(s), _)) => {
            if str_eq(s.as_str(), salt) {
                server_compute_expected(phc, nonce)
            } else {
                None
            }
        },
        _ => None,
    }
}

impl ClientHandshake {
    pub fn new(require_auth: bool, passphrase: Option<String>, saved_phc: Option<String>) -> (h: Self)
        ensures
            h.stage == HandshakeStage::AwaitFirst,
            h.require_auth == require_auth,
            h.passphrase == passphrase,
            h.saved_phc == saved_phc,
            h.phc_to_save is None,
    {
        ClientHandshake {
            stage: HandshakeStage::AwaitFirst,
            require_auth,
            passphrase,
            saved_phc,
            phc_to_save: None,
        }
    }

    fn check_session_init(&self, msg: ControlMsg) -> (r: HandshakeStep)
        ensures
            session_init_outcome(self.require_auth, opt_view(self.phc_to_save), msg, r),
    {
        match msg {
            ControlMsg::SessionInit { conn_id, encrypt, auth, screen_width, screen_height, .. } => {
                if self.require_auth != auth {
                    HandshakeStep::Fail(
                        if self.require_auth {
                            HandshakeFailure::ServerDoesNotRequirePassphrase
                        } else {
                            HandshakeFailure::ServerRequiresPassphrase
                        },
                    )
                } else {
                    HandshakeStep::Done(
                        SessionParams {
                            conn_id,
                            server_encrypt: encrypt,
                            phc_to_save: clone_opt(&self.phc_to_save),
                            screen_width,
                            screen_height,
                        },
                    )
                }
            },
            _ => HandshakeStep::Fail(HandshakeFailure::ExpectedSessionInit),
        }
    }

    /// React to the next control message from the server.
    pub fn on_message(&mut self, msg: ControlMsg) -> (r: HandshakeStep)
        ensures
            handshake_outcome(*old(self), msg, r, *final(self)),
    {
        match self.stage {
            HandshakeStage::AwaitFirst => {
                if let ControlMsg::AuthChallenge { nonce, salt } = msg {
                    if !self.require_auth {
                        return HandshakeStep::Fail(HandshakeFailure::AuthDisabledOnClient);
                    }
                    let saved = match &self.saved_phc {
                        Some(phc) => saved_phc_response(phc.as_str(), salt.as_str(), &nonce),
                        None => None,
                    };
                    if let Some(hmac) = saved {
                        self.phc_to_save = clone_opt(&self.saved_phc);
                        self.stage = HandshakeStage::AwaitAuthResult;
                        return HandshakeStep::Reply(ControlMsg::AuthResponse { hmac });
                    }
                    let pass = match &self.passphrase {
                        Some(p) => p,
                        None => return HandshakeStep::Fail(HandshakeFailure::NoPassphrase),
                    };
                    let phc = hash_passphrase_with_salt(pass.as_str(), salt.as_str());
                    self.phc_to_save = clone_opt(&phc);
                    let hmac = match &phc {
                        Some(p) => server_compute_expected(p.as_str(), &nonce),
                        None => None,
                    };
                    match hmac {
                        Some(hmac) => {
                            self.stage = HandshakeStage::AwaitAuthResult;
                            HandshakeStep::Reply(ControlMsg::AuthResponse { hmac })
                        },
                        None => HandshakeStep::Fail(HandshakeFailure::ResponseFailed),
                    }
                } else {
                    self.check_session_init(msg)
                }
            },
            HandshakeStage::AwaitAuthResult => {
                if let ControlMsg::AuthResult { ok } = msg {
                    if ok {
                        self.stage = HandshakeStage::AwaitSessionInit;
                        HandshakeStep::Wait
                    } else {
                        HandshakeStep::Fail(HandshakeFailure::IncorrectPassword)
                    }
                } else {
                    self.check_session_init(msg)
                }
            },
            HandshakeStage::AwaitSessionInit => self.check_session_init(msg),
        }
    }
}

/// Whether the client's and the server's encryption preferences agree, and
/// the failure to report when they do not or when keys are missing.
pub fn check_encryption(client_encrypt: bool, server_encrypt: bool, have_keys: bool) -> (r: Option<HandshakeFailure>)
    ensures
        r == (if client_encrypt != server_encrypt {
            Some(if client_encrypt { HandshakeFailure::ServerDoesNotEncrypt } else { HandshakeFailure::ServerEncrypts })
        } else if client_encrypt && !have_keys {
            Some(HandshakeFailure::NoEncryptionKeys)
        } else {
            None
        }),
{
    if client_encrypt != server_encrypt {
        Some(if client_encrypt { HandshakeFailure::ServerDoesNotEncrypt } else { HandshakeFailure::ServerEncrypts })
    } else if client_encrypt && !have_keys {
        Some(HandshakeFailure::NoEncryptionKeys)
    } else {
        None
    }
}


/// First contact with a server that has no remembered fingerprint: the
/// certificate that the connection accepting any certificate was shown is
/// trusted, under `host:port` and under the address it connected to; that
/// connection is kept. The fingerprint trusted is returned.
pub fn trust_first_contact(
    known: &mut KnownServers,
    host: &str,
    probe_ip: &str,
    port: u16,
    probe_cert_der: &[u8],
) -> (fp: [u8; 32])
    requires
        old(known).wf(),
    ensures
        final(known).wf(),
        fp@ == sha256(cert_identity(probe_cert_der@)),
        final(known)@ == old(known)@.insert(server_key_text(host@, port), hex_text(fp@)).insert(
            server_key_text(probe_ip@, port),
            hex_text(fp@),
        ),
{
    let fp = cert_fingerprint(probe_cert_der);
    trust_server(known, host, port, fp);
    trust_server(known, probe_ip, port, fp);
    fp
}

/// After first contact, the next connection to the server trusts the
/// fingerprint just stored, whether it looks the server up by the address
/// it connected to or by its host name alone.
pub proof fn lemma_first_contact_trusted(
    known: Map<Seq<char>, Seq<char>>,
    host: Seq<char>,
    probe_ip: Seq<char>,
    port: u16,
    fp: Seq<u8>,
)
    requires
        fp.len() == 32,
    ensures
        ({
            let host_key = server_key_text(host, port);
            let ip_key = server_key_text(probe_ip, port);
            let after = known.insert(host_key, hex_text(fp)).insert(ip_key, hex_text(fp));
            &&& trusted_fingerprint(after, None, seq![ip_key], host_key) == Some(fp)
            &&& trusted_fingerprint(after, None, Seq::empty(), host_key) == Some(fp)
        }),
{
    let host_key = server_key_text(host, port);
    let ip_key = server_key_text(probe_ip, port);
    let after = known.insert(host_key, hex_text(fp)).insert(ip_key, hex_text(fp));
    lemma_fingerprint_roundtrip(fp);
    assert(seq![ip_key].push(host_key)[0] == ip_key);
    assert(Seq::<Seq<char>>::empty().push(host_key)[0] == host_key);
    assert(after.contains_key(ip_key) && after[ip_key] == hex_text(fp));
    assert(after.contains_key(host_key) && after[host_key] == hex_text(fp));
}

/// What follows a failed connection to a server whose certificate was
/// trusted, once a connection that accepts any certificate was tried.
#[derive(Debug, Clone, Copy, PartialEq, Eq)]
pub enum TrustOutcome {
    /// The server still shows the trusted certificate: keep the probing
    /// connection.
    UseProbe,
    /// The server shows another certificate, with this fingerprint: refuse
    /// and ask the user.
    Mismatch([u8; 32]),
    /// The probe failed too: report the first failure.
    Fail,
}

/// The outcome after a failed trusted connection, from the fingerprint the
/// probing connection saw (none where it failed too). A changed
/// certificate is never accepted.
pub fn after_failed_trust(trusted: &[u8; 32], probed: Option<[u8; 32]>) -> (r: TrustOutcome)
    ensures
        r == (match probed {
            None => TrustOutcome::Fail,
            Some(fp) => if fp@ == trusted@ {
                TrustOutcome::UseProbe
            } else {
                TrustOutcome::Mismatch(fp)
            },
        }),
{
    match probed {
        None => TrustOutcome::Fail,
        Some(fp) => {
            let mut i: usize = 0;
            while i < 32
                invariant
                    i <= 32,
                    probed == Some(fp),
                    forall|k: int| 0 <= k < i ==> fp@[k] == trusted@[k],
                decreases 32 - i,
            {
                if fp[i] != trusted[i] {
                    assert(fp@[i as int] != trusted@[i as int]);
                    return TrustOutcome::Mismatch(fp);
                }
                i += 1;
            }
            assert(fp@ =~= trusted@);
            TrustOutcome::UseProbe
        },
    }
}


// ---------------------------------------------------------------------------
// Datagrams
// ---------------------------------------------------------------------------

/// A plaintext datagram: the connection id, then the batch payload.
pub open spec fn plain_datagram(conn_id: u64, payload: Seq<u8>) -> Seq<u8> {
    le64_bytes(conn_id) + payload
}

/// The header of an encrypted datagram: the connection id and the sequence
/// number; the nonce and ciphertext follow.
pub open spec fn sealed_header(conn_id: u64, seq: u64) -> Seq<u8> {
    le64_bytes(conn_id) + le64_bytes(seq)
}

fn push_all(v: &mut Vec<u8>, b: &[u8])
    ensures
        final(v)@ == old(v)@ + b@,
{
    let mut i: usize = 0;
    while i < b.len()
        invariant
            i <= b@.len(),
            v@ == old(v)@ + b@.take(i as int),
        decreases b@.len() - i,
    {
        v.push(b[i]);
        proof {
            assert(b@.take(i + 1) =~= b@.take(i as int).push(b@[i as int]));
        }
        i += 1;
    }
    assert(b@.take(b@.len() as int) =~= b@);
}

/// Build the datagram for a batch payload: the connection id followed by
/// the payload, or, when encrypting, by the sequence number and the
/// AES-256-GCM packet that `decrypt_event` opens with the same key and
/// sequence number. Encryption without a key gives no datagram.
pub fn build_datagram(
    conn_id: u64,
    payload: &[u8],
    encrypt: bool,
    key: Option<&[u8; 32]>,
    seq: u64,
) -> (r: Option<Vec<u8>>)
    ensures
        !encrypt ==> (r matches Some(d) && d@ == plain_datagram(conn_id, payload@)),
        encrypt && key is None ==> r is None,
        encrypt && key is Some ==> (r is Some <==> payload@.len() <= AEAD_MAX_MESSAGE),
        encrypt && key is Some ==> (r matches Some(d) ==> {
            &&& d@.len() == 16 + 12 + payload@.len() + 16
            &&& d@.take(16) == sealed_header(conn_id, seq)
            &&& open_packet(key.unwrap()@, seq, d@.skip(16)) == Some(payload@)
        }),
{
    let id = u64_to_le(conn_id);
    if encrypt {
        match key {
            Some(k) => match encrypt_event(k, seq, payload) {
                Ok(ct) => {
                    let s = u64_to_le(seq);
                    let mut p: Vec<u8> = Vec::new();
                    push_all(&mut p, &id);
                    push_all(&mut p, &s);
                    push_all(&mut p, ct.as_slice());
                    proof {
                        assert(p@.take(16) =~= sealed_header(conn_id, seq));
                        assert(p@.skip(16) =~= ct@);
                    }
                    Some(p)
                },
                Err(_) => None,
            },
            None => None,
        }
    } else {
        let mut p: Vec<u8> = Vec::new();
        push_all(&mut p, &id);
        push_all(&mut p, payload);
        Some(p)
    }
}

/// The sequence number after sending a batch: advanced by one (wrapping)
/// for each batch sealed with a key, whether sealing succeeded or not, and
/// unchanged otherwise.
pub open spec fn seq_after(encrypt: bool, has_key: bool, seq: u64) -> u64 {
    if encrypt && has_key {
        if seq == u64::MAX {
            0
        } else {
            (seq + 1) as u64
        }
    } else {
        seq
    }
}

/// Build the datagram for the next batch with the running sequence number,
/// and advance it: a sealed datagram carries the number as it was, and each
/// batch sealed with a key uses one number up.
pub fn next_datagram(
    conn_id: u64,
    payload: &[u8],
    encrypt: bool,
    key: Option<&[u8; 32]>,
    seq: &mut u64,
) -> (r: Option<Vec<u8>>)
    ensures
        *final(seq) == seq_after(encrypt, key is Some, *old(seq)),
        !encrypt ==> (r matches Some(d) && d@ == plain_datagram(conn_id, payload@)),
        encrypt && key is None ==> r is None,
        encrypt && key is Some ==> (r is Some <==> payload@.len() <= AEAD_MAX_MESSAGE),
        encrypt && key is Some ==> (r matches Some(d) ==> {
            &&& d@.len() == 16 + 12 + payload@.len() + 16
            &&& d@.take(16) == sealed_header(conn_id, *old(seq))
            &&& open_packet(key.unwrap()@, *old(seq), d@.skip(16)) == Some(payload@)
        }),
{
    let s = *seq;
    let r = build_datagram(conn_id, payload, encrypt, key, s);
    if encrypt && key.is_some() {
        *seq = if s == u64::MAX { 0 } else { s + 1 };
    }
    r
}

// ---------------------------------------------------------------------------
// Batching
// ---------------------------------------------------------------------------

/// Percentage draw for simulated packet loss: `fastrand::u8(0..100)`,
/// a value below 100.
#[verifier::external_body]
fn random_percent() -> (r: u8)
    ensures
        r < 100,
{
    fastrand::u8(0..100)
}

/// Whether a flushed batch goes out under a simulated loss of `drop_pct`
/// percent, given a draw in `0..100`.
pub open spec fn sends(drop_pct: u8, draw: u8) -> bool {
    drop_pct == 0 || draw >= drop_pct
}

/// Whether a flushed batch goes out under a simulated loss of `drop_pct`
/// percent, given the draw: always when the loss is 0, otherwise when the
/// draw is at least the loss.
pub fn send_for_draw(drop_pct: u8, draw: u8) -> (send: bool)
    ensures
        send == sends(drop_pct, draw),
{
    drop_pct == 0 || draw >= drop_pct
}

/// Whether to send a flushed batch under a simulated loss of `drop_pct`
/// percent, with a fresh draw in `0..100`.
pub fn should_send(drop_pct: u8) -> (send: bool)
    ensures
        exists|draw: u8| draw < 100 && send == sends(drop_pct, draw),
        drop_pct == 0 ==> send,
        drop_pct >= 100 ==> !send,
{
    if drop_pct == 0 {
        proof {
            assert(sends(drop_pct, 0));
        }
        return true;
    }
    let draw = random_percent();
    send_for_draw(drop_pct, draw)
}

/// The history kept after a flush: the flushed batch is appended and only
/// the most recent `redundancy` batches stay; none stay when it is 0.
pub open spec fn kept_history(h: Seq<(Seq<Event>, u16)>, batch: (Seq<Event>, u16), redundancy: nat) -> Seq<(Seq<Event>, u16)> {
    if redundancy == 0 {
        Seq::empty()
    } else {
        let all = h.push(batch);
        if all.len() > redundancy {
            all.skip(all.len() - redundancy)
        } else {
            all
        }
    }
}

/// Collects input events into batches and keeps the recently sent batches
/// for redundant retransmission.
pub struct Batcher {
    batch: Vec<Event>,
    history: VecDeque<(Vec<Event>, u16)>,
    max_batch: usize,
    seq_base: u16,
}

/// View of the batcher: the pending events, the history (oldest first), the
/// batch size, and the sequence base of the pending batch.
pub struct BatcherView {
    pub batch: Seq<Event>,
    pub history: Seq<(Seq<Event>, u16)>,
    pub max_batch: nat,
    pub seq_base: u16,
}

impl View for Batcher {
    type V = BatcherView;

    closed spec fn view(&self) -> BatcherView {
        BatcherView {
            batch: self.batch@,
            history: history_view(self.history@),
            max_batch: self.max_batch as nat,
            seq_base: self.seq_base,
        }
    }
}

fn clone_events(v: &Vec<Event>) -> (r: Vec<Event>)
    ensures
        r@ == v@,
{
    let mut r: Vec<Event> = Vec::new();
    let mut i: usize = 0;
    while i < v.len()
        invariant
            i <= v@.len(),
            r@ == v@.take(i as int),
        decreases v@.len() - i,
    {
        r.push(v[i]);
        proof {
            assert(v@.take(i + 1) =~= v@.take(i as int).push(v@[i as int]));
        }
        i += 1;
    }
    assert(v@.take(v@.len() as int) =~= v@);
    r
}

impl Batcher {
    /// An empty batcher that sends batches of `max_batch` events (at least 1).
    pub fn new(max_batch: u8) -> (b: Self)
        ensures
            b@.batch.len() == 0,
            b@.history.len() == 0,
            b@.max_batch == (if max_batch == 0 { 1 } else { max_batch as nat }),
            b@.seq_base == 0,
    {
        Batcher {
            batch: Vec::new(),
            history: VecDeque::new(),
            max_batch: if max_batch == 0 { 1 } else { max_batch as usize },
            seq_base: 0,
        }
    }

    /// Add an event to the pending batch; true when the batch is full.
    pub fn push(&mut self, event: Event) -> (full: bool)
        ensures
            final(self)@.batch == old(self)@.batch.push(event),
            final(self)@.history == old(self)@.history,
            final(self)@.max_batch == old(self)@.max_batch,
            final(self)@.seq_base == old(self)@.seq_base,
            full == (final(self)@.batch.len() >= final(self)@.max_batch),
    {
        self.batch.push(event);
        proof {
            assert(self@.history == old(self)@.history);
        }
        self.batch.len() >= self.max_batch
    }

    /// Whether no event is pending.
    pub fn is_empty(&self) -> (r: bool)
        ensures
            r == (self@.batch.len() == 0),
    {
        self.batch.len() == 0
    }

    /// Encode the pending batch with the history of recent batches as a
    /// datagram payload, then move the batch into the history (keeping the
    /// `redundancy` most recent) and start the next batch.
    pub fn flush(&mut self, redundancy: u8) -> (payload: Vec<u8>)
        ensures
            payload@ == datagram_bytes(old(self)@.batch, old(self)@.seq_base, old(self)@.history),
            final(self)@.batch.len() == 0,
            final(self)@.history == kept_history(
                old(self)@.history,
                (old(self)@.batch, old(self)@.seq_base),
                redundancy as nat,
            ),
            final(self)@.history.len() <= redundancy,
            final(self)@.max_batch == old(self)@.max_batch,
            final(self)@.seq_base == (if old(self)@.seq_base == u16::MAX {
                0
            } else {
                (old(self)@.seq_base + 1) as u16
            }),
    {
        let payload = Event::encode_batch(self.batch.as_slice(), self.seq_base, &self.history);
        let ghost old_hist = history_view(self.history@);
        if redundancy > 0 {
            let b = clone_events(&self.batch);
            self.history.push_back((b, self.seq_base));
            proof {
                assert(history_view(self.history@) =~= old_hist.push((old(self)@.batch, old(self)@.seq_base)));
            }
            let ghost all = old_hist.push((old(self)@.batch, old(self)@.seq_base));
            while self.history.len() > redundancy as usize
                invariant
                    redundancy > 0,
                    self.history@.len() >= 1,
                    self.history@.len() <= all.len(),
                    all.len() > redundancy ==> self.history@.len() >= redundancy,
                    all.len() <= redundancy ==> self.history@.len() == all.len(),
                    history_view(self.history@) == all.skip(all.len() - self.history@.len()),
                    self.batch@ == old(self)@.batch,
                    self.max_batch == old(self).max_batch,
                    self.seq_base == old(self).seq_base,
                decreases self.history@.len(),
            {
                let ghost before = self.history@;
                self.history.pop_front();
                proof {
                    let k = all.len() - before.len();
                    assert(self.history@ == before.subrange(1, before.len() as int));
                    assert forall|i: int| 0 <= i < self.history@.len() implies
                        #[trigger] history_view(self.history@)[i] == all.skip(k + 1)[i] by {
                        assert(history_view(before)[i + 1] == all.skip(k)[i + 1]);
                    }
                    assert(history_view(self.history@) =~= all.skip(all.len() - self.history@.len()));
                }
            }
            proof {
                if all.len() <= redundancy {
                    assert(all.skip(0) =~= all);
                }
            }
        } else {
            self.history.clear();
            assert(history_view(self.history@) =~= Seq::<(Seq<Event>, u16)>::empty());
        }
        self.batch.clear();
        self.seq_base = if self.seq_base == u16::MAX { 0 } else { self.seq_base + 1 };
        payload
    }
}

/// A flush with room for redundant copies keeps the most recent batches:
/// as many as fit, in order, ending with the batch just flushed under its
/// sequence base; with no room it keeps none.
pub proof fn lemma_flush_keeps_recent(
    h: Seq<(Seq<Event>, u16)>,
    batch: (Seq<Event>, u16),
    redundancy: nat,
)
    ensures
        redundancy == 0 ==> kept_history(h, batch, redundancy).len() == 0,
        redundancy > 0 ==> {
            let k = kept_history(h, batch, redundancy);
            &&& k.len() == (if h.len() + 1 < redundancy { (h.len() + 1) as int } else { redundancy as int })
            &&& k.last() == batch
            &&& forall|i: int| 0 <= i < k.len() ==> #[trigger] k[i] == h.push(batch)[h.len() + 1 - k.len() + i]
        },
{
}

} // verus!
