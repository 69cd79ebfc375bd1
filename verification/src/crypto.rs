//! Replay protection and symmetric protection of the UDP input plane.

use vstd::prelude::*;
use aes_gcm::aead::{Aead, KeyInit, Payload};
use aes_gcm::{Aes256Gcm, Nonce};
use hkdf::Hkdf;
use rand_core::{OsRng, RngCore};
use sha2::Sha256;

verus! {

/// Number of sequence numbers that the replay window remembers.
pub const WINDOW_SIZE: usize = 1024;

/// Number of 64-bit words in the replay bitmap.
pub const WORDS: usize = 16;

/// RFC 4303-style replay window.
///
/// Bit `k` of the bitmap (word `k / 64`, bit `k % 64`) records whether the
/// sequence number `max_seq - k` has been accepted.
#[derive(Debug, Clone)]
pub struct ReplayWindow {
    max_seq: u64,
    bitmap: [u64; 16],
}

/// Whether bit `k` of a bitmap given as its words is set.
pub open spec fn window_bit(words: Seq<u64>, k: int) -> bool {
    (words[k / 64] >> ((k % 64) as u64)) & 1u64 == 1u64
}

/// The 1024 bits of a bitmap as booleans.
pub open spec fn window_bits(words: Seq<u64>) -> Seq<bool> {
    Seq::new(WINDOW_SIZE as nat, |k: int| window_bit(words, k))
}

/// The record after a forward jump of `d` sequence numbers: every record
/// moves up by `d` places (those that leave the window are forgotten), and
/// bit 0 (the new maximum) is set.
pub open spec fn shifted_seen(seen: Seq<bool>, d: int) -> Seq<bool> {
    Seq::new(
        WINDOW_SIZE as nat,
        |k: int|
            if k == 0 {
                true
            } else {
                k >= d && seen[k - d]
            },
    )
}

/// One call of `is_valid`: whether `s` is accepted, and the new state.
pub open spec fn replay_step(v: (u64, Seq<bool>), s: u64) -> (bool, (u64, Seq<bool>)) {
    if s == 0 {
        (false, v)
    } else if s > v.0 {
        (true, (s, shifted_seen(v.1, s - v.0)))
    } else if v.0 - s >= WINDOW_SIZE || v.1[v.0 - s] {
        (false, v)
    } else {
        (true, (v.0, v.1.update(v.0 - s, true)))
    }
}

/// Whether `s` is recorded as already accepted in state `v`.
pub open spec fn replay_recorded(v: (u64, Seq<bool>), s: u64) -> bool {
    s <= v.0 && v.0 - s < WINDOW_SIZE && v.1[v.0 - s]
}

impl View for ReplayWindow {
    type V = (u64, Seq<bool>);

    closed spec fn view(&self) -> (u64, Seq<bool>) {
        (self.max_seq, window_bits(self.bitmap@))
    }
}

proof fn lemma_shift_word(a: u64, c: u64, bs: u64, j: u64)
    requires
        0 < bs < 64,
        j < 64,
    ensures
        ((((a << bs) | (c >> ((64 - bs) as u64))) >> j) & 1u64 == 1u64) == (if j >= bs {
            (a >> ((j - bs) as u64)) & 1u64 == 1u64
        } else {
            (c >> ((64 - bs + j) as u64)) & 1u64 == 1u64
        }),
{
    assert(((((a << bs) | (c >> ((64 - bs) as u64))) >> j) & 1u64 == 1u64) == (if j >= bs {
        (a >> ((j - bs) as u64)) & 1u64 == 1u64
    } else {
        (c >> ((64 - bs + j) as u64)) & 1u64 == 1u64
    })) by (bit_vector)
        requires
            0 < bs < 64,
            j < 64,
    ;
}

proof fn lemma_shift_first_word(a: u64, bs: u64, j: u64)
    requires
        0 < bs < 64,
        j < 64,
    ensures
        ((((a << bs) | 0u64) >> j) & 1u64 == 1u64) == (j >= bs && (a >> ((j - bs) as u64)) & 1u64
            == 1u64),
{
    assert(((((a << bs) | 0u64) >> j) & 1u64 == 1u64) == (j >= bs && (a >> ((j - bs) as u64))
        & 1u64 == 1u64)) by (bit_vector)
        requires
            0 < bs < 64,
            j < 64,
    ;
}

proof fn lemma_set_bit(w: u64, b: u64, j: u64)
    requires
        b < 64,
        j < 64,
    ensures
        (((w | (1u64 << b)) >> j) & 1u64 == 1u64) == (j == b || (w >> j) & 1u64 == 1u64),
        ((w & (1u64 << b)) != 0) == ((w >> b) & 1u64 == 1u64),
{
    assert((((w | (1u64 << b)) >> j) & 1u64 == 1u64) == (j == b || (w >> j) & 1u64 == 1u64))
        by (bit_vector)
        requires
            b < 64,
            j < 64,
    ;
    assert(((w & (1u64 << b)) != 0) == ((w >> b) & 1u64 == 1u64)) by (bit_vector)
        requires
            b < 64,
    ;
}

proof fn lemma_zero_word(j: u64)
    requires
        j < 64,
    ensures
        !((0u64 >> j) & 1u64 == 1u64),
{
    assert(!((0u64 >> j) & 1u64 == 1u64)) by (bit_vector);
}

/// Word `j` of the bitmap after moving every bit up by `64 * ws + bs`
/// places: the word `ws` below, shifted up by `bs` bits, with the top bits
/// of the word below that carried in.
pub open spec fn shifted_word(words: Seq<u64>, ws: int, bs: u64, j: int) -> u64 {
    let hi: u64 = if j >= ws { words[j - ws] } else { 0u64 };
    let lo: u64 = if j >= ws + 1 { words[j - ws - 1] } else { 0u64 };
    if bs == 0 {
        hi
    } else {
        (hi << bs) | (lo >> ((64 - bs) as u64))
    }
}

fn old_word(words: &[u64; 16], j: usize) -> (w: u64)
    requires
        j < 16,
    ensures
        w == words@[j as int],
{
    words[j]
}

/// Bit `k` of the moved bitmap is bit `k - (64 * ws + bs)` of the old one,
/// or clear where that is below 0.
proof fn lemma_shifted_bit(words: Seq<u64>, ws: int, bs: u64, k: int)
    requires
        words.len() == WORDS,
        0 <= ws < 16,
        bs < 64,
        0 <= k < WINDOW_SIZE,
    ensures
        window_bit(Seq::new(WORDS as nat, |j: int| shifted_word(words, ws, bs, j)), k) == (k >= 64 * ws + bs
            && window_bit(words, k - (64 * ws + bs))),
{
    let wi = k / 64;
    let j = (k % 64) as u64;
    let d = 64 * ws + bs;
    let hi: u64 = if wi >= ws { words[wi - ws] } else { 0u64 };
    let lo: u64 = if wi >= ws + 1 { words[wi - ws - 1] } else { 0u64 };
    lemma_zero_word(j);
    if bs == 0 {
        if wi >= ws {
            assert((k - d) / 64 == wi - ws);
            assert((k - d) % 64 == j);
        }
    } else {
        lemma_shift_word(hi, lo, bs, j);
        if j >= bs {
            if wi >= ws {
                assert((k - d) / 64 == wi - ws);
                assert((k - d) % 64 == j - bs);
            } else {
                lemma_zero_word((j - bs) as u64);
            }
        } else {
            if wi >= ws + 1 {
                assert((k - d) / 64 == wi - ws - 1);
                assert((k - d) % 64 == 64 - bs + j);
            } else {
                lemma_zero_word((64 - bs + j) as u64);
            }
        }
    }
}

impl ReplayWindow {
    /// An empty window: nothing accepted yet, maximum sequence number 0.
    pub fn new() -> (w: Self)
        ensures
            w@.0 == 0,
            w@.1.len() == WINDOW_SIZE,
            forall|k: int| 0 <= k < WINDOW_SIZE ==> !#[trigger] w@.1[k],
    {
        let w = Self { max_seq: 0, bitmap: [0u64; 16] };
        assert forall|k: int| 0 <= k < WINDOW_SIZE implies !#[trigger] w@.1[k] by {
            lemma_zero_word((k % 64) as u64);
        }
        w
    }

    /// The highest sequence number accepted so far.
    pub fn max_seq(&self) -> (m: u64)
        ensures
            m == self@.0,
    {
        self.max_seq
    }

    /// Every window records the last `WINDOW_SIZE` sequence numbers.
    pub proof fn lemma_record_len(&self)
        ensures
            self@.1.len() == WINDOW_SIZE,
    {
    }

    /// Returns true if the sequence number is valid (not duplicate, not too old),
    /// and records it as seen.
    pub fn is_valid(&mut self, seq: u64) -> (ok: bool)
        ensures
            (ok, final(self)@) == replay_step(old(self)@, seq),
            final(self)@.1.len() == WINDOW_SIZE,
    {
        if seq == 0 {
            return false;
        }
        let ghost old_bits = self@.1;
        let ghost old_words = self.bitmap@;
        if seq > self.max_seq {
            let diff: u64 = seq - self.max_seq;
            let shift: u64 = if diff < 1024 { diff } else { 1024 };
            let mut bm = self.bitmap;
            if shift >= 1024 {
                bm = [0u64; 16];
                proof {
                    assert forall|k: int| 0 <= k < WINDOW_SIZE implies !window_bit(bm@, k) by {
                        lemma_zero_word((k % 64) as u64);
                    }
                }
            } else {
                let word_shift: usize = (shift / 64) as usize;
                let bit_shift: u64 = shift % 64;
                let mut i: usize = 0;
                while i < WORDS
                    invariant
                        shift < 1024,
                        word_shift == shift / 64,
                        bit_shift == shift % 64,
                        i <= WORDS,
                        old_words.len() == WORDS,
                        self.bitmap@ == old_words,
                        bm@.len() == WORDS,
                        forall|j: int| 0 <= j < i ==> #[trigger] bm@[j] == shifted_word(old_words, word_shift as int, bit_shift, j),
                    decreases WORDS - i,
                {
                    let hi: u64 = if i >= word_shift { old_word(&self.bitmap, i - word_shift) } else { 0 };
                    let lo: u64 = if i >= word_shift + 1 { old_word(&self.bitmap, i - word_shift - 1) } else { 0 };
                    let w: u64 = if bit_shift == 0 { hi } else { (hi << bit_shift) | (lo >> (64 - bit_shift)) };
                    bm[i] = w;
                    i += 1;
                }
                proof {
                    assert(bm@ =~= Seq::new(WORDS as nat, |j: int| shifted_word(old_words, word_shift as int, bit_shift, j)));
                    assert forall|k: int| 0 <= k < WINDOW_SIZE implies window_bit(bm@, k) == (k >= diff
                        && old_bits[k - diff]) by {
                        lemma_shifted_bit(old_words, word_shift as int, bit_shift, k);
                        assert(bm@[k / 64] == shifted_word(old_words, word_shift as int, bit_shift, k / 64));
                        if k >= diff {
                            assert(old_bits[k - diff] == window_bit(old_words, k - diff));
                        }
                    }
                }
            }
            assert(forall|k: int|
                0 <= k < WINDOW_SIZE ==> window_bit(bm@, k) == (diff < WINDOW_SIZE && k >= diff && old_bits[k - diff]));
            let ghost before_set = bm@;
            bm[0] = bm[0] | 1;
            proof {
                assert forall|k: int| 0 <= k < WINDOW_SIZE implies window_bit(bm@, k) == (k == 0
                    || window_bit(before_set, k)) by {
                    if k < 64 {
                        lemma_set_bit(before_set[0], 0, k as u64);
                        assert(1u64 << 0u64 == 1u64) by (bit_vector);
                    }
                }
            }
            self.max_seq = seq;
            self.bitmap = bm;
            proof {
                assert forall|k: int| 0 <= k < WINDOW_SIZE implies #[trigger] self@.1[k]
                    == shifted_seen(old_bits, diff as int)[k] by {
                    assert(self@.1[k] == window_bit(bm@, k));
                    assert(window_bit(bm@, k) == (k == 0 || window_bit(before_set, k)));
                    assert(window_bit(before_set, k) == (diff < WINDOW_SIZE && k >= diff && old_bits[k - diff]));
                }
                assert(self@.1 =~= shifted_seen(old_bits, diff as int));
            }
            true
        } else {
            let diff: u64 = self.max_seq - seq;
            if diff >= 1024 {
                return false;
            }
            let word: usize = (diff / 64) as usize;
            let bit: u64 = diff % 64;
            let mask: u64 = 1u64 << bit;
            proof {
                lemma_set_bit(self.bitmap[word as int], bit, bit);
            }
            if self.bitmap[word] & mask != 0 {
                return false;
            }
            let mut bm = self.bitmap;
            bm[word] = bm[word] | mask;
            proof {
                assert forall|k: int| 0 <= k < WINDOW_SIZE implies window_bit(bm@, k) == (k == diff
                    || window_bit(old_words, k)) by {
                    if k / 64 == word as int {
                        lemma_set_bit(old_words[word as int], bit, (k % 64) as u64);
                    }
                }
            }
            self.bitmap = bm;
            proof {
                assert(self@.1 =~= old_bits.update(diff as int, true));
            }
            true
        }
    }
}

/// A sequence number is spent in state `v`: it is 0, recorded as accepted,
/// or too old for the window.
pub open spec fn replay_spent(v: (u64, Seq<bool>), s: u64) -> bool {
    s == 0 || (s <= v.0 && (v.0 - s >= WINDOW_SIZE || v.1[v.0 - s]))
}

/// A sequence number that the window has just accepted is spent.
pub proof fn lemma_accepted_spent(v: (u64, Seq<bool>), s: u64)
    requires
        v.1.len() == WINDOW_SIZE,
        replay_step(v, s).0,
    ensures
        replay_spent(replay_step(v, s).1, s),
{
}

/// A spent sequence number is refused.
pub proof fn lemma_spent_refused(v: (u64, Seq<bool>), s: u64)
    requires
        replay_spent(v, s),
    ensures
        !replay_step(v, s).0,
{
}

/// A spent sequence number stays spent whatever the window takes next.
pub proof fn lemma_spent_stays(v: (u64, Seq<bool>), s: u64, t: u64)
    requires
        v.1.len() == WINDOW_SIZE,
        replay_spent(v, s),
    ensures
        replay_spent(replay_step(v, t).1, s),
        replay_step(v, t).1.1.len() == WINDOW_SIZE,
{
    let v2 = replay_step(v, t).1;
    if s != 0 && t != 0 && t > v.0 && t - s < WINDOW_SIZE {
        let d = t - v.0;
        let k = t - s;
        assert(v.0 - s < WINDOW_SIZE);
        assert(v2.1[k] == (k == 0 || (k >= d && v.1[k - d])));
        assert(k - d == v.0 - s);
    }
}

/// The state after the window takes each number of `ts` in turn.
pub open spec fn replay_run(v: (u64, Seq<bool>), ts: Seq<u64>) -> (u64, Seq<bool>)
    decreases ts.len(),
{
    if ts.len() == 0 {
        v
    } else {
        replay_step(replay_run(v, ts.drop_last()), ts.last()).1
    }
}

proof fn lemma_run_keeps_spent(v: (u64, Seq<bool>), s: u64, ts: Seq<u64>)
    requires
        v.1.len() == WINDOW_SIZE,
        replay_spent(v, s),
    ensures
        replay_spent(replay_run(v, ts), s),
        replay_run(v, ts).1.len() == WINDOW_SIZE,
    decreases ts.len(),
{
    if ts.len() > 0 {
        lemma_run_keeps_spent(v, s, ts.drop_last());
        lemma_spent_stays(replay_run(v, ts.drop_last()), s, ts.last());
    }
}

/// Each sequence number is accepted at most once: after the window accepts
/// `s`, whatever numbers it takes next, `s` is refused.
pub proof fn lemma_accepted_at_most_once(v: (u64, Seq<bool>), s: u64, later: Seq<u64>)
    requires
        v.1.len() == WINDOW_SIZE,
        replay_step(v, s).0,
    ensures
        !replay_step(replay_run(replay_step(v, s).1, later), s).0,
{
    lemma_accepted_spent(v, s);
    lemma_run_keeps_spent(replay_step(v, s).1, s, later);
    lemma_spent_refused(replay_run(replay_step(v, s).1, later), s);
}


// ---------------------------------------------------------------------------
// Key derivation and authenticated encryption
// ---------------------------------------------------------------------------

/// HKDF-SHA256 (no salt) of input keying material `ikm` with context `info`,
/// expanded to `len` bytes.
pub uninterp spec fn hkdf_sha256(ikm: Seq<u8>, info: Seq<u8>, len: nat) -> Seq<u8>;

/// AES-256-GCM encryption of `msg` under `key` and `nonce` with associated
/// data `aad`: the ciphertext followed by the 16-byte tag.
pub uninterp spec fn aes_gcm_seal(key: Seq<u8>, nonce: Seq<u8>, aad: Seq<u8>, msg: Seq<u8>) -> Seq<u8>;

/// AES-256-GCM decryption of `ct` (ciphertext and tag); `None` when the tag
/// does not authenticate.
pub uninterp spec fn aes_gcm_open(key: Seq<u8>, nonce: Seq<u8>, aad: Seq<u8>, ct: Seq<u8>) -> Option<Seq<u8>>;

/// `hkdf::Hkdf::<Sha256>::new(None, ikm)` followed by `expand(info, okm)` into
/// `len` bytes. The crate refuses only outputs longer than 255 hash blocks,
/// which `requires` rules out; the bytes are named by `hkdf_sha256`.
#[verifier::external_body]
pub(crate) fn hkdf_expand(ikm: &[u8], info: &[u8], len: usize) -> (okm: Vec<u8>)
    requires
        len <= 255 * 32,
    ensures
        okm@ == hkdf_sha256(ikm@, info@, len as nat),
        okm@.len() == len,
{
    let hk = Hkdf::<Sha256>::new(None, ikm);
    let mut okm = vec![0u8; len];
    hk.expand(info, &mut okm).unwrap();
    okm
}

/// Fills `len` bytes from the operating system's random generator with
/// `rand_core::OsRng::fill_bytes`; only the length is stated.
#[verifier::external_body]
pub(crate) fn random_bytes(len: usize) -> (r: Vec<u8>)
    ensures
        r@.len() == len,
{
    let mut buf = vec![0u8; len];
    OsRng.fill_bytes(&mut buf);
    buf
}

/// The error of the `aead` crate: an opaque refusal.
#[verifier::external_type_specification]
#[verifier::external_body]
pub struct ExAeadError(aes_gcm::Error);

/// `Aes256Gcm::new_from_slice(key)` then `Aead::encrypt(nonce, Payload { msg, aad })`.
/// The crate's `encrypt_in_place_detached` refuses a message longer than
/// 2^36 bytes or associated data longer than 2^36 bytes; otherwise the result
/// is the named ciphertext, 16 bytes longer than the message, and decrypting
/// it with the same key, nonce and associated data gives the message back.
#[verifier::external_body]
fn aes_gcm_encrypt(key: &[u8; 32], nonce: &[u8; 12], aad: &[u8], msg: &[u8]) -> (r: Result<
    Vec<u8>,
    aes_gcm::Error,
>)
    ensures
        r is Ok <==> (msg@.len() <= 0x10_0000_0000 && aad@.len() <= 0x10_0000_0000),
        r matches Ok(ct) ==> {
            &&& ct@ == aes_gcm_seal(key@, nonce@, aad@, msg@)
            &&& ct@.len() == msg@.len() + 16
            &&& aes_gcm_open(key@, nonce@, aad@, ct@) == Some(msg@)
        },
{
    let cipher = Aes256Gcm::new_from_slice(key).unwrap();
    cipher.encrypt(Nonce::from_slice(nonce), Payload { msg, aad })
}

/// `Aes256Gcm::new_from_slice(key)` then `Aead::decrypt(nonce, Payload { msg: ct, aad })`,
/// with the error mapped to `None`; the result is named by `aes_gcm_open`.
#[verifier::external_body]
fn aes_gcm_decrypt(key: &[u8; 32], nonce: &[u8], aad: &[u8], ct: &[u8]) -> (r: Option<Vec<u8>>)
    requires
        nonce@.len() == 12,
    ensures
        match r {
            Some(m) => aes_gcm_open(key@, nonce@, aad@, ct@) == Some(m@),
            None => aes_gcm_open(key@, nonce@, aad@, ct@) is None,
        },
{
    let cipher = Aes256Gcm::new_from_slice(key).unwrap();
    cipher.decrypt(Nonce::from_slice(nonce), Payload { msg: ct, aad }).ok()
}

/// The eight little-endian bytes of a `u64`.
pub open spec fn le64_bytes(v: u64) -> Seq<u8> {
    Seq::new(8, |i: int| ((v as nat / pow256(i)) % 256) as u8)
}

/// `256^i`.
pub open spec fn pow256(i: int) -> nat
    decreases i,
{
    if i <= 0 {
        1
    } else {
        256 * pow256(i - 1)
    }
}

/// The little-endian bytes of `v`.
pub fn u64_to_le(v: u64) -> (b: [u8; 8])
    ensures
        b@ == le64_bytes(v),
{
    let mut b = [0u8; 8];
    let mut x = v;
    let mut i: usize = 0;
    assert(pow256(0) == 1);
    while i < 8
        invariant
            i <= 8,
            x as nat == v as nat / pow256(i as int),
            forall|j: int| 0 <= j < i ==> b@[j] == le64_bytes(v)[j],
        decreases 8 - i,
    {
        proof {
            lemma_pow256_div(v as nat, i as int);
        }
        b[i] = (x % 256) as u8;
        x = x / 256;
        i += 1;
    }
    assert(b@ =~= le64_bytes(v));
    b
}

proof fn lemma_pow256_div(v: nat, i: int)
    requires
        0 <= i,
    ensures
        v / pow256(i) / 256 == v / pow256(i + 1),
        pow256(i) > 0,
    decreases i,
{
    if i > 0 {
        lemma_pow256_div(v, i - 1);
    }
    assert(pow256(i + 1) == 256 * pow256(i));
    vstd::arithmetic::div_mod::lemma_div_denominator(v as int, pow256(i) as int, 256);
    vstd::arithmetic::mul::lemma_mul_is_commutative(pow256(i) as int, 256);
}

/// Errors of authenticated encryption.
#[derive(Debug, Clone, Copy, PartialEq, Eq)]
pub enum CryptoError {
    /// The AEAD refused the input (message or associated data too long).
    Aead,
}

/// Per-direction UDP keys derived from TLS exporter.
#[derive(Debug, Clone)]
pub struct UdpKeys {
    pub client_write: [u8; 32],
    pub server_write: [u8; 32],
}

fn to_key(v: &Vec<u8>) -> (k: [u8; 32])
    requires
        v@.len() == 32,
    ensures
        k@ == v@,
{
    let mut k = [0u8; 32];
    let mut i: usize = 0;
    while i < 32
        invariant
            i <= 32,
            v@.len() == 32,
            forall|j: int| 0 <= j < i ==> k@[j] == v@[j],
        decreases 32 - i,
    {
        k[i] = v[i];
        i += 1;
    }
    assert(k@ =~= v@);
    k
}

/// The HKDF context for the client-to-server key: the bytes of `client-write`.
pub open spec fn client_write_info() -> Seq<u8> {
    seq![99u8, 108u8, 105u8, 101u8, 110u8, 116u8, 45u8, 119u8, 114u8, 105u8, 116u8, 101u8]
}

/// The HKDF context for the server-to-client key: the bytes of `server-write`.
pub open spec fn server_write_info() -> Seq<u8> {
    seq![115u8, 101u8, 114u8, 118u8, 101u8, 114u8, 45u8, 119u8, 114u8, 105u8, 116u8, 101u8]
}

/// Derive client/server UDP keys from 64 bytes of TLS exported material.
pub fn derive_udp_keys(exported: &[u8; 64]) -> (keys: UdpKeys)
    ensures
        keys.client_write@ == hkdf_sha256(exported@, client_write_info(), 32),
        keys.server_write@ == hkdf_sha256(exported@, server_write_info(), 32),
{
    let client_info: [u8; 12] = [99u8, 108u8, 105u8, 101u8, 110u8, 116u8, 45u8, 119u8, 114u8, 105u8, 116u8, 101u8];
    let server_info: [u8; 12] = [115u8, 101u8, 114u8, 118u8, 101u8, 114u8, 45u8, 119u8, 114u8, 105u8, 116u8, 101u8];
    assert(client_info@ =~= client_write_info());
    assert(server_info@ =~= server_write_info());
    let c = hkdf_expand(exported, &client_info, 32);
    let s = hkdf_expand(exported, &server_info, 32);
    UdpKeys { client_write: to_key(&c), server_write: to_key(&s) }
}


/// What `decrypt_event` gives for a packet body `b` (nonce, then ciphertext
/// and tag) with sequence number `seq` bound as associated data.
pub open spec fn open_packet(key: Seq<u8>, seq: u64, b: Seq<u8>) -> Option<Seq<u8>> {
    if b.len() < 12 + 16 {
        None
    } else {
        aes_gcm_open(key, b.take(12), le64_bytes(seq), b.skip(12))
    }
}

/// Largest message that AES-256-GCM accepts, in bytes.
pub const AEAD_MAX_MESSAGE: u64 = 0x10_0000_0000;

/// Encrypt an event batch with AES-256-GCM under a fresh random nonce; the
/// sequence number is bound as associated data. The result is the nonce
/// followed by the ciphertext and tag, and `decrypt_event` with the same key
/// and sequence number gives the plaintext back.
pub fn encrypt_event(key: &[u8; 32], seq: u64, plaintext: &[u8]) -> (r: Result<Vec<u8>, CryptoError>)
    ensures
        r is Ok <==> plaintext@.len() <= AEAD_MAX_MESSAGE,
        r matches Ok(packet) ==> {
            &&& packet@.len() == 12 + plaintext@.len() + 16
            &&& packet@.skip(12) == aes_gcm_seal(key@, packet@.take(12), le64_bytes(seq), plaintext@)
            &&& open_packet(key@, seq, packet@) == Some(plaintext@)
        },
{
    let random = random_bytes(12);
    let mut nonce = [0u8; 12];
    let mut i: usize = 0;
    while i < 12
        invariant
            i <= 12,
            random@.len() == 12,
        decreases 12 - i,
    {
        nonce[i] = random[i];
        i += 1;
    }
    let seq_bytes = u64_to_le(seq);
    match aes_gcm_encrypt(key, &nonce, &seq_bytes, plaintext) {
        Ok(ct) => {
            let mut packet: Vec<u8> = Vec::new();
            let mut j: usize = 0;
            while j < 12
                invariant
                    j <= 12,
                    packet@ == nonce@.take(j as int),
                decreases 12 - j,
            {
                packet.push(nonce[j]);
                proof {
                    assert(nonce@.take(j + 1) =~= nonce@.take(j as int).push(nonce@[j as int]));
                }
                j += 1;
            }
            let mut k: usize = 0;
            while k < ct.len()
                invariant
                    k <= ct@.len(),
                    packet@ == nonce@ + ct@.take(k as int),
                decreases ct@.len() - k,
            {
                packet.push(ct[k]);
                proof {
                    assert(ct@.take(k + 1) =~= ct@.take(k as int).push(ct@[k as int]));
                }
                k += 1;
            }
            proof {
                assert(nonce@.take(12) =~= nonce@);
                assert(ct@.take(ct@.len() as int) =~= ct@);
                assert(packet@.take(12) =~= nonce@);
                assert(packet@.skip(12) =~= ct@);
            }
            Ok(packet)
        },
        Err(_) => Err(CryptoError::Aead),
    }
}

/// Decrypt an event batch with AES-256-GCM; the sequence number is verified
/// as associated data. `None` for a body shorter than nonce and tag or one
/// that does not authenticate.
pub fn decrypt_event(key: &[u8; 32], seq: u64, nonce_ct: &[u8]) -> (r: Option<Vec<u8>>)
    ensures
        match r {
            Some(m) => open_packet(key@, seq, nonce_ct@) == Some(m@),
            None => open_packet(key@, seq, nonce_ct@) is None,
        },
{
    if nonce_ct.len() < 12 + 16 {
        return None;
    }
    let nonce = vstd::slice::slice_subrange(nonce_ct, 0, 12);
    let ciphertext = vstd::slice::slice_subrange(nonce_ct, 12, nonce_ct.len());
    assert(nonce@ =~= nonce_ct@.take(12));
    assert(ciphertext@ =~= nonce_ct@.skip(12));
    let seq_bytes = u64_to_le(seq);
    aes_gcm_decrypt(key, nonce, &seq_bytes, ciphertext)
}

} // verus!
