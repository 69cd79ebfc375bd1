//! Challenge-response authentication over the control channel.
//!
//! The server sends a random nonce; the client answers with
//! HMAC-SHA256(Argon2(passphrase, salt), nonce), where the Argon2 output is
//! the hash recorded in the server's PHC string.

use vstd::prelude::*;
use hmac::{Hmac, Mac};
use sha2::Sha256;
use subtle::ConstantTimeEq;

use crate::config::{
    argon2_phc, hash_passphrase_with_salt, hashed_passphrase, parse_phc, phc_hash, phc_salt, salt_hashes_all,
};
use vstd::utf8::encode_utf8;
use crate::crypto::random_bytes;

verus! {

/// HMAC-SHA256 of `msg` under `key`.
pub uninterp spec fn hmac_sha256(key: Seq<u8>, msg: Seq<u8>) -> Seq<u8>;

/// `Hmac::<Sha256>::new_from_slice(key)` (which accepts keys of any length),
/// `update(msg)`, `finalize()`; the 32 bytes are named by `hmac_sha256`.
#[verifier::external_body]
fn hmac_tag(key: &[u8], msg: &[u8; 32]) -> (tag: [u8; 32])
    ensures
        tag@ == hmac_sha256(key@, msg@),
{
    let mut mac = Hmac::<Sha256>::new_from_slice(key).unwrap();
    mac.update(msg);
    mac.finalize().into_bytes().into()
}

/// `subtle::ConstantTimeEq::ct_eq` on two 32-byte arrays, converted to
/// `bool`: true exactly when all bytes are equal.
#[verifier::external_body]
pub(crate) fn ct_eq_32(a: &[u8; 32], b: &[u8; 32]) -> (r: bool)
    ensures
        r == (a@ == b@),
{
    a.ct_eq(b).into()
}

/// The response that a client with `passphrase` computes for a server
/// whose PHC string is `phc`: the passphrase is hashed under the server's
/// salt and the hash output keys an HMAC of the challenge.
pub open spec fn client_response(passphrase: Seq<char>, phc: Seq<char>, challenge: Seq<u8>) -> Option<Seq<u8>> {
    match phc_salt(phc) {
        None => None,
        Some(salt) => match argon2_phc(passphrase, salt) {
            None => None,
            Some(h) => match phc_hash(h) {
                None => None,
                Some(key) => Some(hmac_sha256(key, challenge)),
            },
        },
    }
}

/// The response that a server holding the PHC string `phc` expects.
pub open spec fn server_expected(phc: Seq<char>, challenge: Seq<u8>) -> Option<Seq<u8>> {
    match phc_hash(phc) {
        None => None,
        Some(key) => Some(hmac_sha256(key, challenge)),
    }
}

/// Generate a 32-byte random challenge.
pub fn generate_challenge() -> (c: [u8; 32]) {
    let random = random_bytes(32);
    let mut c = [0u8; 32];
    let mut i: usize = 0;
    while i < 32
        invariant
            i <= 32,
            random@.len() == 32,
        decreases 32 - i,
    {
        c[i] = random[i];
        i += 1;
    }
    c
}

fn hmac_with_phc_key(phc: &str, challenge: &[u8; 32]) -> (r: Option<[u8; 32]>)
    ensures
        match r {
            Some(t) => server_expected(phc@, challenge@) == Some(t@),
            None => server_expected(phc@, challenge@) is None,
        },
{
    match parse_phc(phc) {
        Some((_, Some(key))) => Some(hmac_tag(key.as_slice(), challenge)),
        _ => None,
    }
}

/// Client computes HMAC-SHA256(Argon2(passphrase, salt), challenge).
/// The salt is extracted from the server's PHC string.
pub fn client_compute_response(passphrase: &str, phc: &str, challenge: &[u8; 32]) -> (r: Option<[u8; 32]>)
    ensures
        match r {
            Some(t) => client_response(passphrase@, phc@, challenge@) == Some(t@),
            None => client_response(passphrase@, phc@, challenge@) is None,
        },
{
    let salt = match parse_phc(phc) {
        Some((Some(s), _)) => s,
        _ => return None,
    };
    let hash = match hash_passphrase_with_salt(passphrase, salt.as_str()) {
        Some(h) => h,
        None => return None,
    };
    hmac_with_phc_key(hash.as_str(), challenge)
}

/// Server computes the expected response from its stored PHC hash.
/// The PHC string's hash output is used directly as the HMAC key,
/// so the plaintext passphrase is not required.
pub fn server_compute_expected(stored_phc: &str, challenge: &[u8; 32]) -> (r: Option<[u8; 32]>)
    ensures
        match r {
            Some(t) => server_expected(stored_phc@, challenge@) == Some(t@),
            None => server_expected(stored_phc@, challenge@) is None,
        },
{
    hmac_with_phc_key(stored_phc, challenge)
}

/// Server verifies the client's response against its stored PHC hash.
pub fn server_verify_response(stored_phc: &str, challenge: &[u8; 32], client_response: &[u8; 32]) -> (ok: bool)
    ensures
        ok == (server_expected(stored_phc@, challenge@) == Some(client_response@)),
{
    match server_compute_expected(stored_phc, challenge) {
        Some(expected) => ct_eq_32(&expected, client_response),
        None => false,
    }
}

/// A client that knows the passphrase answers a server that stores its
/// (non-empty) hash as the server expects, whatever the challenge.
pub proof fn lemma_auth_roundtrip(passphrase: Seq<char>, phc: Seq<char>, challenge: Seq<u8>)
    requires
        hashed_passphrase(passphrase, phc),
        phc.len() > 0,
    ensures
        client_response(passphrase, phc, challenge) is Some,
        client_response(passphrase, phc, challenge) == server_expected(phc, challenge),
{
    let salt = choose|salt: Seq<char>|
        salt_hashes_all(salt) && match #[trigger] argon2_phc(passphrase, salt) {
            Some(p) => phc == p && phc_salt(p) == Some(salt) && phc_hash(p) is Some,
            None => phc == Seq::<char>::empty(),
        };
    assert(argon2_phc(passphrase, salt) == Some(phc));
}

/// Against a stored hash of a passphrase, any passphrase within Argon2's
/// length limit, right or wrong, yields a response; only the right one
/// yields the response the server expects (see `lemma_auth_roundtrip`).
pub proof fn lemma_any_passphrase_answers(
    passphrase: Seq<char>,
    phc: Seq<char>,
    other: Seq<char>,
    challenge: Seq<u8>,
)
    requires
        hashed_passphrase(passphrase, phc),
        phc.len() > 0,
        encode_utf8(other).len() <= 0xFFFF_FFFF,
    ensures
        client_response(other, phc, challenge) is Some,
{
    let salt = choose|salt: Seq<char>|
        salt_hashes_all(salt) && match #[trigger] argon2_phc(passphrase, salt) {
            Some(p) => phc == p && phc_salt(p) == Some(salt) && phc_hash(p) is Some,
            None => phc == Seq::<char>::empty(),
        };
    assert(argon2_phc(passphrase, salt) == Some(phc));
    assert(argon2_phc(other, salt) is Some);
}

} // verus!
