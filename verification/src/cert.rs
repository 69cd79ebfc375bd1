//! The server's certificate and trust on first use: reading the stored
//! certificate and key from PEM text, making a new self-signed pair, a
//! certificate's identity (the SHA-256 fingerprint of its public key, found
//! by walking its DER encoding), its hexadecimal form, and the check that a
//! presented certificate is the one trusted before.

use vstd::prelude::*;
use sha2::{Digest, Sha256};
use crate::net::auth::ct_eq_32;
use vstd::slice::slice_subrange;
use rcgen::{Certificate, CertificateParams, KeyPair};

verus! {

/// The SHA-256 digest of `data`.
pub uninterp spec fn sha256(data: Seq<u8>) -> Seq<u8>;

/// `sha2::Sha256` over `data`: the 32-byte digest, named `sha256`.
#[verifier::external_body]
fn sha256_digest(data: &[u8]) -> (d: [u8; 32])
    ensures
        d@ == sha256(data@),
{
    let mut hasher = Sha256::new();
    hasher.update(data);
    hasher.finalize().into()
}

// ---------------------------------------------------------------------------
// The certificate's public key, by its DER encoding
// ---------------------------------------------------------------------------

/// The value of big-endian bytes.
pub open spec fn be_value(s: Seq<u8>) -> nat
    decreases s.len(),
{
    if s.len() == 0 {
        0
    } else {
        be_value(s.drop_last()) * 256 + s.last() as nat
    }
}

/// The header of the DER element at `i`: the header's length and the
/// content's length. The length is in short form, or in long form with one
/// to four bytes.
pub open spec fn der_header(b: Seq<u8>, i: int) -> Option<(int, int)> {
    if i < 0 || i + 2 > b.len() {
        None
    } else if b[i + 1] < 0x80 {
        Some((2, b[i + 1] as int))
    } else if 0x81 <= b[i + 1] <= 0x84 {
        let n = b[i + 1] - 0x80;
        if i + 2 + n > b.len() {
            None
        } else {
            Some((2 + n, be_value(b.subrange(i + 2, i + 2 + n)) as int))
        }
    } else {
        None
    }
}

/// The DER element with tag `tag` at `i`, lying before `end`: where its
/// content starts and where the element ends.
pub open spec fn der_element(b: Seq<u8>, i: int, end: int, tag: u8) -> Option<(int, int)> {
    match der_header(b, i) {
        Some((h, l)) => if i < end && b[i] == tag && i + h + l <= end {
            Some((i + h, i + h + l))
        } else {
            None
        },
        None => None,
    }
}

/// Within a certificate's to-be-signed part ending at `end`, from `p` just
/// after the optional version: the serial number, the signature algorithm,
/// the issuer, the validity and the subject, then the span of the subject
/// public key info.
pub open spec fn tbs_key_span(b: Seq<u8>, p: int, end: int) -> Option<(int, int)> {
    match der_element(b, p, end, 0x02) {
        None => None,
        Some((_, e1)) => match der_element(b, e1, end, 0x30) {
            None => None,
            Some((_, e2)) => match der_element(b, e2, end, 0x30) {
                None => None,
                Some((_, e3)) => match der_element(b, e3, end, 0x30) {
                    None => None,
                    Some((_, e4)) => match der_element(b, e4, end, 0x30) {
                        None => None,
                        Some((_, e5)) => match der_element(b, e5, end, 0x30) {
                            None => None,
                            Some((_, e6)) => Some((e5, e6)),
                        },
                    },
                },
            },
        },
    }
}

/// The span of the subject public key info in an X.509 certificate's DER
/// encoding: the certificate is a SEQUENCE whose first element, the
/// to-be-signed part, is a SEQUENCE of an optional `[0]` version, then the
/// fields before the key; `None` where the bytes are not so laid out.
pub open spec fn spki_span(b: Seq<u8>) -> Option<(int, int)> {
    match der_element(b, 0, b.len() as int, 0x30) {
        None => None,
        Some((c, ce)) => match der_element(b, c, ce, 0x30) {
            None => None,
            Some((t, te)) => {
                let p = match der_element(b, t, te, 0xA0) {
                    Some((_, e)) => e,
                    None => t,
                };
                tbs_key_span(b, p, te)
            },
        },
    }
}

/// What identifies a certificate: its subject public key info, or the
/// whole DER encoding where that cannot be found.
pub open spec fn cert_identity(der: Seq<u8>) -> Seq<u8> {
    match spki_span(der) {
        Some((s, e)) => der.subrange(s, e),
        None => der,
    }
}

/// Read the header of the DER element at `i`.
fn read_der_header(b: &[u8], i: usize) -> (r: Option<(usize, usize)>)
    ensures
        match r {
            Some((h, l)) => der_header(b@, i as int) == Some((h as int, l as int)),
            None => der_header(b@, i as int) is None,
        },
{
    if i >= b.len() || b.len() - i < 2 {
        return None;
    }
    let l0 = b[i + 1];
    if l0 < 0x80 {
        return Some((2, l0 as usize));
    }
    if l0 < 0x81 || l0 > 0x84 {
        return None;
    }
    let n: usize = (l0 - 0x80) as usize;
    if b.len() - i - 2 < n {
        return None;
    }
    let ghost bytes = b@.subrange(i + 2, i + 2 + n);
    let base: usize = i + 2;
    let blen: usize = b.len();
    let mut v: u64 = 0;
    let mut k: usize = 0;
    while k < n
        invariant
            k <= n,
            n <= 4,
            base == i + 2,
            blen == b@.len(),
            base + n <= blen,
            bytes == b@.subrange(i + 2, i + 2 + n),
            v == be_value(bytes.take(k as int)),
            k == 0 ==> v == 0,
            k <= 1 ==> v < 0x100,
            k <= 2 ==> v < 0x1_0000,
            k <= 3 ==> v < 0x100_0000,
            v < 0x1_0000_0000,
        decreases n - k,
    {
        assert(bytes.take(k + 1).drop_last() =~= bytes.take(k as int));
        assert(bytes[k as int] == b@[i + 2 + k]);
        v = v * 256 + b[base + k] as u64;
        k += 1;
    }
    assert(bytes.take(n as int) =~= bytes);
    Some((2 + n, v as usize))
}

/// The DER element with tag `tag` at `i`, lying before `end`.
fn read_der_element(b: &[u8], i: usize, end: usize, tag: u8) -> (r: Option<(usize, usize)>)
    requires
        end <= b@.len(),
    ensures
        match r {
            Some((c, e)) => der_element(b@, i as int, end as int, tag) == Some((c as int, e as int)),
            None => der_element(b@, i as int, end as int, tag) is None,
        },
{
    match read_der_header(b, i) {
        None => None,
        Some((h, l)) => {
            if i < end && b[i] == tag && h <= end - i && l <= end - i - h {
                Some((i + h, i + h + l))
            } else {
                None
            }
        },
    }
}

/// The span of the subject public key info, from just after the version.
fn read_tbs_key_span(b: &[u8], p: usize, end: usize) -> (r: Option<(usize, usize)>)
    requires
        end <= b@.len(),
    ensures
        match r {
            Some((s, e)) => tbs_key_span(b@, p as int, end as int) == Some((s as int, e as int)),
            None => tbs_key_span(b@, p as int, end as int) is None,
        },
{
    let e1 = match read_der_element(b, p, end, 0x02) {
        Some((_, e)) => e,
        None => return None,
    };
    let e2 = match read_der_element(b, e1, end, 0x30) {
        Some((_, e)) => e,
        None => return None,
    };
    let e3 = match read_der_element(b, e2, end, 0x30) {
        Some((_, e)) => e,
        None => return None,
    };
    let e4 = match read_der_element(b, e3, end, 0x30) {
        Some((_, e)) => e,
        None => return None,
    };
    let e5 = match read_der_element(b, e4, end, 0x30) {
        Some((_, e)) => e,
        None => return None,
    };
    match read_der_element(b, e5, end, 0x30) {
        Some((_, e6)) => Some((e5, e6)),
        None => None,
    }
}

/// The span of the subject public key info in a certificate's DER
/// encoding, where it is laid out as an X.509 certificate.
pub fn spki_span_of(cert_der: &[u8]) -> (r: Option<(usize, usize)>)
    ensures
        match r {
            Some((s, e)) => spki_span(cert_der@) == Some((s as int, e as int)) && s <= e <= cert_der@.len(),
            None => spki_span(cert_der@) is None,
        },
{
    let (c, ce) = match read_der_element(cert_der, 0, cert_der.len(), 0x30) {
        Some(x) => x,
        None => return None,
    };
    let (t, te) = match read_der_element(cert_der, c, ce, 0x30) {
        Some(x) => x,
        None => return None,
    };
    let p = match read_der_element(cert_der, t, te, 0xA0) {
        Some((_, e)) => e,
        None => t,
    };
    read_tbs_key_span(cert_der, p, te)
}

/// A certificate's fingerprint: the SHA-256 digest of its subject public
/// key info, or of its whole DER encoding where that cannot be found.
pub fn cert_fingerprint(cert_der: &[u8]) -> (fp: [u8; 32])
    ensures
        fp@ == sha256(cert_identity(cert_der@)),
{
    match spki_span_of(cert_der) {
        Some((s, e)) => sha256_digest(slice_subrange(cert_der, s, e)),
        None => sha256_digest(cert_der),
    }
}

/// The lowercase hexadecimal digit for `d`.
pub open spec fn hex_char(d: nat) -> char {
    if d < 10 {
        ('0' as nat + d) as char
    } else {
        ('a' as nat + d - 10) as char
    }
}

/// The two lowercase hexadecimal digits of a byte.
pub open spec fn hex_pair(b: u8) -> Seq<char> {
    seq![hex_char(b as nat / 16), hex_char(b as nat % 16)]
}

/// Bytes as lowercase hexadecimal, two digits per byte.
pub open spec fn hex_text(bytes: Seq<u8>) -> Seq<char>
    decreases bytes.len(),
{
    if bytes.len() == 0 {
        Seq::empty()
    } else {
        hex_text(bytes.drop_last()) + hex_pair(bytes.last())
    }
}

/// The value of a hexadecimal digit in either case.
pub open spec fn hex_value(c: char) -> Option<u8> {
    if '0' <= c <= '9' {
        Some((c as nat - '0' as nat) as u8)
    } else if 'a' <= c <= 'f' {
        Some((c as nat - 'a' as nat + 10) as u8)
    } else if 'A' <= c <= 'F' {
        Some((c as nat - 'A' as nat + 10) as u8)
    } else {
        None
    }
}

/// The bytes that a hexadecimal text stands for: an even number of digits,
/// in either case, two per byte.
pub open spec fn hex_bytes(s: Seq<char>) -> Option<Seq<u8>>
    decreases s.len(),
{
    if s.len() == 0 {
        Some(Seq::empty())
    } else if s.len() < 2 {
        None
    } else {
        match (hex_bytes(s.take(s.len() - 2)), hex_value(s[s.len() - 2]), hex_value(s[s.len() - 1])) {
            (Some(b), Some(h), Some(l)) => Some(b.push((h * 16 + l) as u8)),
            _ => None,
        }
    }
}

/// `hex::encode`: each byte as two lowercase hexadecimal digits.
#[verifier::external_body]
fn hex_encode(bytes: &[u8]) -> (s: String)
    ensures
        s@ == hex_text(bytes@),
{
    hex::encode(bytes)
}

/// `hex::decode`, with its error dropped: the bytes of an even-length text
/// of hexadecimal digits in either case, nothing for any other text.
#[verifier::external_body]
fn hex_decode(s: &str) -> (r: Option<Vec<u8>>)
    ensures
        match r {
            Some(v) => hex_bytes(s@) == Some(v@),
            None => hex_bytes(s@) is None,
        },
{
    hex::decode(s).ok()
}

/// A fingerprint as lowercase hexadecimal for display and storage.
pub fn format_fingerprint(fingerprint: &[u8; 32]) -> (s: String)
    ensures
        s@ == hex_text(fingerprint@),
{
    hex_encode(fingerprint)
}

/// The fingerprint that a stored hexadecimal text holds, if it holds
/// exactly 32 bytes.
pub fn parse_fingerprint(s: &str) -> (r: Option<[u8; 32]>)
    ensures
        match r {
            Some(fp) => hex_bytes(s@) == Some(fp@),
            None => !(hex_bytes(s@) matches Some(b) && b.len() == 32),
        },
{
    let v = match hex_decode(s) {
        Some(v) => v,
        None => return None,
    };
    if v.len() != 32 {
        return None;
    }
    let mut fp = [0u8; 32];
    let mut i: usize = 0;
    while i < 32
        invariant
            v@.len() == 32,
            i <= 32,
            forall|j: int| 0 <= j < i ==> fp@[j] == v@[j],
        decreases 32 - i,
    {
        fp[i] = v[i];
        i += 1;
    }
    assert(fp@ =~= v@);
    Some(fp)
}

proof fn lemma_hex_char_value(d: nat)
    requires
        d < 16,
    ensures
        hex_value(hex_char(d)) == Some(d as u8),
{
}

proof fn lemma_hex_text_len(b: Seq<u8>)
    ensures
        hex_text(b).len() == 2 * b.len(),
    decreases b.len(),
{
    if b.len() > 0 {
        lemma_hex_text_len(b.drop_last());
    }
}

/// Hexadecimal text reads back as the bytes it was made from.
pub proof fn lemma_hex_roundtrip(b: Seq<u8>)
    ensures
        hex_bytes(hex_text(b)) == Some(b),
    decreases b.len(),
{
    if b.len() > 0 {
        let t = hex_text(b);
        let d = b.drop_last();
        lemma_hex_roundtrip(d);
        lemma_hex_text_len(d);
        lemma_hex_text_len(b);
        assert(t.take(t.len() - 2) =~= hex_text(d));
        let x = b.last();
        lemma_hex_char_value(x as nat / 16);
        lemma_hex_char_value(x as nat % 16);
        assert(t[t.len() - 2] == hex_char(x as nat / 16));
        assert(t[t.len() - 1] == hex_char(x as nat % 16));
        assert(d.push(x) =~= b);
    }
}

/// A fingerprint written out and read back is the same fingerprint.
pub proof fn lemma_fingerprint_roundtrip(fp: Seq<u8>)
    requires
        fp.len() == 32,
    ensures
        hex_bytes(hex_text(fp)) == Some(fp),
        hex_text(fp).len() == 64,
{
    lemma_hex_roundtrip(fp);
    lemma_hex_text_len(fp);
}

/// Why a presented certificate was refused.
#[derive(Debug, Clone, Copy, PartialEq, Eq, Structural)]
pub enum CertError {
    FingerprintMismatch,
    Tls12Disabled,
}

impl CertError {
    /// The error as text.
    pub fn message(&self) -> (s: &'static str)
        ensures
            s@ == (match *self {
                CertError::FingerprintMismatch => "certificate fingerprint mismatch"@,
                CertError::Tls12Disabled => "TLS 1.2 is disabled"@,
            }),
    {
        match self {
            CertError::FingerprintMismatch => "certificate fingerprint mismatch",
            CertError::Tls12Disabled => "TLS 1.2 is disabled",
        }
    }
}

/// Certificate check for trust on first use: a server is accepted only
/// with the certificate whose SHA-256 fingerprint was trusted.
#[derive(Debug, Clone, Copy, PartialEq, Eq)]
pub struct FingerprintVerifier {
    expected: [u8; 32],
}

impl View for FingerprintVerifier {
    type V = Seq<u8>;

    closed spec fn view(&self) -> Seq<u8> {
        self.expected@
    }
}

impl FingerprintVerifier {
    /// A verifier that trusts the certificate with this fingerprint.
    pub fn new(expected: [u8; 32]) -> (v: Self)
        ensures
            v@ == expected@,
    {
        FingerprintVerifier { expected }
    }

    /// Accept the server's certificate exactly when its fingerprint is the
    /// trusted one (compared in constant time).
    pub fn verify_server_cert(&self, end_entity_der: &[u8]) -> (r: Result<(), CertError>)
        ensures
            r is Ok <==> sha256(cert_identity(end_entity_der@)) == self@,
            r is Err ==> r == Err::<(), CertError>(CertError::FingerprintMismatch),
    {
        let fp = cert_fingerprint(end_entity_der);
        if ct_eq_32(&fp, &self.expected) {
            Ok(())
        } else {
            Err(CertError::FingerprintMismatch)
        }
    }

    /// TLS 1.2 signatures are refused: only TLS 1.3 is spoken.
    pub fn verify_tls12_signature(&self) -> (r: Result<(), CertError>)
        ensures
            r == Err::<(), CertError>(CertError::Tls12Disabled),
    {
        Err(CertError::Tls12Disabled)
    }
}

// ---------------------------------------------------------------------------
// The stored certificate and key
// ---------------------------------------------------------------------------

/// What `rustls_pemfile::certs` yields for PEM text, in order: each
/// certificate's DER encoding, or `None` where reading a section failed.
pub uninterp spec fn pem_cert_items(pem: Seq<u8>) -> Seq<Option<Seq<u8>>>;

/// What `rustls_pemfile::private_key` gives for PEM text: `None` where
/// reading failed, else the DER encoding of the first private key, if any.
pub uninterp spec fn pem_private_key(pem: Seq<u8>) -> Option<Option<Seq<u8>>>;

#[verifier::external_type_specification]
#[verifier::external_body]
pub struct ExIoError(std::io::Error);

/// The bytes of each optional byte vector.
pub open spec fn opt_bytes_seq(v: Seq<Option<Vec<u8>>>) -> Seq<Option<Seq<u8>>> {
    v.map_values(
        |o: Option<Vec<u8>>|
            match o {
                Some(b) => Some(b@),
                None => None,
            },
    )
}

/// `rustls_pemfile::certs` over PEM text, every item it yields: the
/// certificate's DER bytes, or `None` for an item that was an error. The
/// items are named by `pem_cert_items`.
#[verifier::external_body]
fn read_pem_certs(pem: &[u8]) -> (r: Vec<Option<Vec<u8>>>)
    ensures
        opt_bytes_seq(r@) == pem_cert_items(pem@),
{
    let mut rd = pem;
    rustls_pemfile::certs(&mut rd).map(|c| c.ok().map(|d| d.as_ref().to_vec())).collect()
}

/// `rustls_pemfile::private_key` over PEM text, with the key as its DER
/// bytes; the result is named by `pem_private_key`.
#[verifier::external_body]
fn read_pem_private_key(pem: &[u8]) -> (r: Result<Option<Vec<u8>>, std::io::Error>)
    ensures
        match r {
            Ok(Some(k)) => pem_private_key(pem@) == Some(Some(k@)),
            Ok(None) => pem_private_key(pem@) == Some(None::<Seq<u8>>),
            Err(_) => pem_private_key(pem@) is None,
        },
{
    let mut rd = pem;
    rustls_pemfile::private_key(&mut rd).map(|k| k.map(|d| d.secret_der().to_vec()))
}

/// The first certificate among the items read, skipping failed ones.
pub open spec fn first_cert(items: Seq<Option<Seq<u8>>>) -> Option<Seq<u8>>
    decreases items.len(),
{
    if items.len() == 0 {
        None
    } else if items[0] is Some {
        items[0]
    } else {
        first_cert(items.drop_first())
    }
}

/// The stored certificate and key that PEM texts give: `None` where the
/// key text cannot be read; otherwise the first certificate and the first
/// key, where there are both.
pub open spec fn stored_pair(cert_pem: Seq<u8>, key_pem: Seq<u8>) -> Option<Option<(Seq<u8>, Seq<u8>)>> {
    match pem_private_key(key_pem) {
        None => None,
        Some(key) => Some(
            match (first_cert(pem_cert_items(cert_pem)), key) {
                (Some(c), Some(k)) => Some((c, k)),
                _ => None,
            },
        ),
    }
}

/// Why the stored certificate and key, or a new pair, could not be had.
#[derive(Debug, Clone, Copy, PartialEq, Eq, Structural)]
pub enum CertStoreError {
    /// The stored key's PEM text could not be read.
    UnreadableKey,
    /// The host name was refused as a subject name.
    InvalidName,
    /// No key pair could be generated.
    KeyGeneration,
    /// The certificate could not be signed.
    Signing,
}

/// The first certificate among the items read.
fn first_of(items: Vec<Option<Vec<u8>>>) -> (r: Option<Vec<u8>>)
    ensures
        match r {
            Some(c) => first_cert(opt_bytes_seq(items@)) == Some(c@),
            None => first_cert(opt_bytes_seq(items@)) is None,
        },
{
    let mut list = items;
    let ghost all = opt_bytes_seq(list@);
    let mut i: usize = 0;
    assert(all.skip(0) =~= all);
    while i < list.len()
        invariant
            i <= list.len(),
            opt_bytes_seq(list@) == all,
            opt_bytes_seq(items@) == all,
            all.len() == list@.len(),
            first_cert(all) == first_cert(all.skip(i as int)),
        decreases list.len() - i,
    {
        if list[i].is_some() {
            let ghost v = list@[i as int];
            assert(all[i as int] == (match v {
                Some(b) => Some(b@),
                None => None::<Seq<u8>>,
            }));
            assert(all.skip(i as int)[0] == all[i as int]);
            let c = list.remove(i);
            assert(c == v);
            return c;
        }
        assert(all.skip(i as int).drop_first() =~= all.skip(i as int + 1));
        i = i + 1;
    }
    assert(all.skip(i as int).len() == 0);
    None
}

/// The stored certificate and key, as DER, from their PEM texts: an error
/// where the key text cannot be read; `None` where either is missing.
pub fn parse_cert_and_key(cert_pem: &[u8], key_pem: &[u8]) -> (r: Result<Option<(Vec<u8>, Vec<u8>)>, CertStoreError>)
    ensures
        match r {
            Err(e) => stored_pair(cert_pem@, key_pem@) is None && e == CertStoreError::UnreadableKey,
            Ok(Some((c, k))) => stored_pair(cert_pem@, key_pem@) == Some(Some((c@, k@))),
            Ok(None) => stored_pair(cert_pem@, key_pem@) == Some(None::<(Seq<u8>, Seq<u8>)>),
        },
{
    let cert = first_of(read_pem_certs(cert_pem));
    let key = match read_pem_private_key(key_pem) {
        Ok(k) => k,
        Err(_) => return Err(CertStoreError::UnreadableKey),
    };
    match (cert, key) {
        (Some(c), Some(k)) => Ok(Some((c, k))),
        _ => Ok(None),
    }
}

// ---------------------------------------------------------------------------
// A new self-signed certificate
// ---------------------------------------------------------------------------

#[verifier::external_type_specification]
#[verifier::external_body]
pub struct ExCertificateParams(rcgen::CertificateParams);

#[verifier::external_type_specification]
#[verifier::external_body]
pub struct ExKeyPair(rcgen::KeyPair);

#[verifier::external_type_specification]
#[verifier::external_body]
pub struct ExCertificate(rcgen::Certificate);

#[verifier::external_type_specification]
#[verifier::external_body]
pub struct ExRcgenError(rcgen::Error);

/// The PEM text that `rcgen::Certificate::pem` writes for a certificate
/// with this DER encoding.
pub uninterp spec fn rcgen_cert_pem(der: Seq<u8>) -> Seq<char>;

/// The PEM text that `rcgen::KeyPair::serialize_pem` writes for a key pair
/// with this PKCS#8 DER encoding.
pub uninterp spec fn rcgen_key_pem(der: Seq<u8>) -> Seq<char>;

/// Every character of the text is ASCII.
pub open spec fn all_ascii(t: Seq<char>) -> bool {
    forall|j: int| 0 <= j < t.len() ==> (t[j] as int) < 128
}

/// `rcgen::CertificateParams::new` with these subject names. rcgen reads a
/// name that is no IP address as a DNS name and refuses it only where it
/// is not ASCII, so names that are all ASCII give parameters. Nothing else
/// is stated of the parameters, which Verus does not see into.
#[verifier::external_body]
fn certificate_params(names: Vec<String>) -> (r: Result<CertificateParams, rcgen::Error>)
    ensures
        (forall|i: int| 0 <= i < names@.len() ==> all_ascii(#[trigger] names@[i]@)) ==> r is Ok,
{
    CertificateParams::new(names)
}

/// Sets the parameters' `is_ca` to `rcgen::IsCa::NoCa`: the certificate
/// made from them is no certificate authority.
#[verifier::external_body]
fn set_not_ca(params: &mut CertificateParams) {
    params.is_ca = rcgen::IsCa::NoCa;
}

/// `rcgen::KeyPair::generate_for(&rcgen::PKCS_ED25519)`: a fresh random
/// Ed25519 key pair. It depends on the system's random numbers, so nothing
/// is stated of it.
#[verifier::external_body]
fn ed25519_key_pair() -> Result<KeyPair, rcgen::Error> {
    KeyPair::generate_for(&rcgen::PKCS_ED25519)
}

/// `CertificateParams::self_signed`: the certificate for the parameters,
/// signed with the key pair. Nothing is stated of it.
#[verifier::external_body]
fn self_sign(params: CertificateParams, key_pair: &KeyPair) -> Result<Certificate, rcgen::Error> {
    params.self_signed(key_pair)
}

/// A certificate's DER bytes (`Certificate::der`) and PEM text
/// (`Certificate::pem`), which rcgen writes from those same DER bytes.
#[verifier::external_body]
fn certificate_der_pem(cert: &Certificate) -> (r: (Vec<u8>, String))
    ensures
        r.1@ == rcgen_cert_pem(r.0@),
{
    (cert.der().as_ref().to_vec(), cert.pem())
}

/// A generated key pair's PKCS#8 DER bytes (`KeyPair::serialize_der`) and
/// PEM text (`KeyPair::serialize_pem`), which rcgen writes from those same
/// DER bytes. Only a remote key pair, which is never generated here, would
/// make rcgen panic.
#[verifier::external_body]
fn key_der_pem(key_pair: &KeyPair) -> (r: (Vec<u8>, String))
    ensures
        r.1@ == rcgen_key_pem(r.0@),
{
    (key_pair.serialize_der(), key_pair.serialize_pem())
}

/// The subject names of the server's certificate: `spud.local` alone.
pub fn self_signed_names() -> (v: Vec<String>)
    ensures
        v@.len() == 1,
        v@[0]@ == "spud.local"@,
{
    let mut v: Vec<String> = Vec::new();
    v.push("spud.local".to_string());
    v
}

/// A new self-signed Ed25519 certificate for `spud.local`, no certificate
/// authority, and its private key: the certificate's DER and the key's
/// PKCS#8 DER, each with its PEM text. The subject name is always accepted;
/// key generation and signing may fail.
pub fn generate_self_signed_cert() -> (r: Result<(Vec<u8>, Vec<u8>, String, String), CertStoreError>)
    ensures
        match r {
            Ok((cert_der, key_der, cert_pem, key_pem)) => cert_pem@ == rcgen_cert_pem(cert_der@)
                && key_pem@ == rcgen_key_pem(key_der@),
            Err(e) => e == CertStoreError::KeyGeneration || e == CertStoreError::Signing,
        },
{
    let names = self_signed_names();
    proof {
        reveal_strlit("spud.local");
        assert(all_ascii(names@[0]@));
    }
    let mut params = match certificate_params(names) {
        Ok(p) => p,
        Err(_) => return Err(CertStoreError::InvalidName),
    };
    set_not_ca(&mut params);
    let key_pair = match ed25519_key_pair() {
        Ok(k) => k,
        Err(_) => return Err(CertStoreError::KeyGeneration),
    };
    let cert = match self_sign(params, &key_pair) {
        Ok(c) => c,
        Err(_) => return Err(CertStoreError::Signing),
    };
    let (cert_der, cert_pem) = certificate_der_pem(&cert);
    let (key_der, key_pem) = key_der_pem(&key_pair);
    Ok((cert_der, key_der, cert_pem, key_pem))
}

} // verus!
