//! TLS identities: self-signed certificates, SHA-256 fingerprints and
//! pairing codes.
//!
//! Files are read and written by the program around this crate; the
//! decisions on what was read, and the certificate generation itself, are
//! here.
use vstd::prelude::*;
use crate::text::{hex_byte, push_hex_byte, string_push, decimal_padded, push_decimal_padded, is_ascii_digit, is_upper_hex_digit, lemma_decimal_padded_digits};
use crate::clock::unix_time_nanos;

verus! {

/// Longest input (in bytes) that ring's SHA-256 accepts: fewer than 2^61
/// bytes (2^64 - 1 bits); longer input panics.
pub const SHA256_MAX_INPUT: u64 = 0x2000_0000_0000_0000;

/// The SHA-256 digest of a byte sequence.
pub uninterp spec fn sha256(data: Seq<u8>) -> Seq<u8>;

/// SHA-256 of `data` (`ring::digest::digest(&SHA256, data)`), as its 32
/// bytes. Claims: the result is the digest of the argument and has 32 bytes
/// (ring's `SHA256.output_len`). Input of 2^61 bytes or more makes ring
/// panic, so it is excluded.
#[verifier::external_body]
fn sha256_digest(data: &[u8]) -> (d: Vec<u8>)
    requires
        data@.len() < SHA256_MAX_INPUT,
    ensures
        d@ == sha256(data@),
        d@.len() == 32,
{
    ring::digest::digest(&ring::digest::SHA256, data).as_ref().to_vec()
}

/// The fingerprint text of a digest: each byte as two upper-case
/// hexadecimal digits, the bytes separated by colons.
pub open spec fn fingerprint_text(d: Seq<u8>) -> Seq<char>
    decreases d.len(),
{
    if d.len() == 0 {
        Seq::empty()
    } else if d.len() == 1 {
        hex_byte(d[0])
    } else {
        fingerprint_text(d.drop_last()) + seq![':'] + hex_byte(d.last())
    }
}

/// Compute SHA-256 fingerprint of a DER-encoded certificate: the upper-case
/// hexadecimal digest bytes, separated by colons.
pub fn compute_fingerprint(cert_der: &[u8]) -> (s: String)
    requires
        cert_der@.len() < SHA256_MAX_INPUT,
    ensures
        s@ == fingerprint_text(sha256(cert_der@)),
        sha256(cert_der@).len() == 32,
        s@.len() == 95,
{
    let digest = sha256_digest(cert_der);
    let mut hex = String::new();
    let mut i: usize = 0;
    while i < digest.len()
        invariant
            0 <= i <= digest@.len(),
            hex@ == fingerprint_text(digest@.subrange(0, i as int)),
        decreases digest@.len() - i,
    {
        proof {
            assert(digest@.subrange(0, i as int + 1).drop_last() =~= digest@.subrange(0, i as int));
        }
        if i > 0 {
            string_push(&mut hex, ':');
        }
        push_hex_byte(&mut hex, digest[i]);
        proof {
            if i == 0 {
                assert(hex@ =~= fingerprint_text(digest@.subrange(0, 1)));
            }
        }
        i = i + 1;
    }
    proof {
        assert(digest@.subrange(0, i as int) =~= digest@);
        lemma_fingerprint_layout(digest@);
    }
    hex
}

/// The layout of a fingerprint: `3n - 1` characters for `n > 0` bytes,
/// with a colon at every position `3k + 2` and an upper-case hexadecimal
/// digit everywhere else.
pub proof fn lemma_fingerprint_layout(d: Seq<u8>)
    requires
        d.len() > 0,
    ensures
        fingerprint_text(d).len() == 3 * d.len() - 1,
        forall|i: int|
            0 <= i < fingerprint_text(d).len() ==> (if i % 3 == 2 {
                #[trigger] fingerprint_text(d)[i] == ':'
            } else {
                is_upper_hex_digit(fingerprint_text(d)[i])
            }),
    decreases d.len(),
{
    if d.len() > 1 {
        lemma_fingerprint_layout(d.drop_last());
        let p = fingerprint_text(d.drop_last());
        let f = fingerprint_text(d);
        assert forall|i: int| 0 <= i < f.len() implies (if i % 3 == 2 {
            #[trigger] f[i] == ':'
        } else {
            is_upper_hex_digit(f[i])
        }) by {
            if i < p.len() {
                assert(f[i] == p[i]);
            }
        }
    }
}

/// Fingerprint law: every certificate's fingerprint is 95 characters long,
/// 32 upper-case hexadecimal byte pairs separated by colons.
pub proof fn law_fingerprint_format(cert_der: Seq<u8>)
    requires
        sha256(cert_der).len() == 32,
    ensures
        fingerprint_text(sha256(cert_der)).len() == 95,
        forall|i: int|
            0 <= i < 95 ==> (if i % 3 == 2 {
                #[trigger] fingerprint_text(sha256(cert_der))[i] == ':'
            } else {
                is_upper_hex_digit(fingerprint_text(sha256(cert_der))[i])
            }),
{
    lemma_fingerprint_layout(sha256(cert_der));
}

/// Generated TLS identity (certificate + private key).
pub struct TlsIdentity {
    pub cert_der: Vec<u8>,
    pub key_der: Vec<u8>,
    pub fingerprint: String,
}

/// Errors of TLS identity handling.
#[derive(Debug)]
pub enum TlsError {
    /// Certificate generation failed.
    CertGeneration(String),
    /// TLS configuration error.
    Config(String),
    /// I/O error.
    Io(String),
}

/// What a self-signed certificate is asked for: its subject alternative
/// names, the common name and the organization of its subject.
pub struct CertificateRequest {
    pub subject_alt_names: Vec<String>,
    pub common_name: String,
    pub organization: String,
}

impl View for CertificateRequest {
    type V = (Seq<Seq<char>>, Seq<char>, Seq<char>);

    open spec fn view(&self) -> Self::V {
        (self.subject_alt_names@.map_values(|n: String| n@), self.common_name@, self.organization@)
    }
}

/// The request for a peer's certificate: the host name as the only
/// subject alternative name and as the common name, "S-KVM" as the
/// organization.
pub open spec fn request_for(hostname: Seq<char>) -> (Seq<Seq<char>>, Seq<char>, Seq<char>) {
    (seq![hostname], hostname, "S-KVM"@)
}

/// The certificate request for a host name.
pub fn certificate_request(hostname: &str) -> (r: CertificateRequest)
    ensures
        r@ == request_for(hostname@),
{
    let mut names: Vec<String> = Vec::new();
    names.push(String::from_str(hostname));
    let r = CertificateRequest { subject_alt_names: names, common_name: String::from_str(hostname), organization: String::from_str("S-KVM") };
    assert(r@.0 =~= seq![hostname@]);
    r
}

/// Whether ring reads the bytes as an Ed25519 private key in PKCS#8 form
/// (`Ed25519KeyPair::from_pkcs8_maybe_unchecked` accepts them).
pub uninterp spec fn ed25519_key_accepted(key_der: Seq<u8>) -> bool;

/// Whether every character of a text is ASCII.
pub open spec fn all_ascii(s: Seq<char>) -> bool {
    forall|i: int| 0 <= i < s.len() ==> (#[trigger] s[i] as u32) < 128
}

/// A fresh Ed25519 key pair (`rcgen::KeyPair::generate_for(&PKCS_ED25519)`)
/// as its PKCS#8 DER encoding (`KeyPair::serialize_der`), or the text of
/// the error. The key is random. Claims: a generated document is one that
/// ring reads back as an Ed25519 key (rcgen itself parses it back with
/// `Ed25519KeyPair::from_pkcs8`, the stricter reader, and unwraps).
#[verifier::external_body]
fn ed25519_key_der() -> (r: Result<Vec<u8>, String>)
    ensures
        r matches Ok(k) ==> ed25519_key_accepted(k@),
{
    rcgen::KeyPair::generate_for(&rcgen::PKCS_ED25519).map(|k| k.serialize_der()).map_err(|e| e.to_string())
}

/// The DER encoding of the certificate for a request, signed with the
/// Ed25519 key of the given PKCS#8 document.
pub uninterp spec fn self_signed_ed25519(request: (Seq<Seq<char>>, Seq<char>, Seq<char>), key_der: Seq<u8>) -> Seq<u8>;

/// The self-signed certificate for a request (`CertificateParams::self_signed`
/// followed by `Certificate::der`), with the key read as Ed25519 PKCS#8
/// (`KeyPair::from_pkcs8_der_and_sign_algo`) and the parameters made from
/// the request (`CertificateParams::new` with the names, then the common
/// name and organization pushed on the distinguished name); or the text of
/// the error. Claims: a certificate that is produced is a function of the
/// request and the key bytes. rcgen's source shows why: the validity dates
/// are fixed defaults, the serial number and key identifier are hashes of
/// the public key, the name keeps its insertion order, and Ed25519
/// signatures are deterministic. It succeeds exactly when ring reads the
/// key and every subject alternative name is ASCII: `CertificateParams::new`
/// rejects a name that is neither an IP address nor an `Ia5String` (ASCII),
/// and serializing and signing with an Ed25519 key cannot fail otherwise.
#[verifier::external_body]
fn self_signed_certificate(request: &CertificateRequest, key_der: &[u8]) -> (r: Result<Vec<u8>, String>)
    ensures
        r matches Ok(c) ==> c@ == self_signed_ed25519(request@, key_der@),
        r is Ok <==> (ed25519_key_accepted(key_der@) && forall|i: int|
            0 <= i < request@.0.len() ==> all_ascii(#[trigger] request@.0[i])),
{
    let key = rustls::pki_types::PrivatePkcs8KeyDer::from(key_der);
    let key = rcgen::KeyPair::from_pkcs8_der_and_sign_algo(&key, &rcgen::PKCS_ED25519).map_err(|e| e.to_string())?;
    let mut p = rcgen::CertificateParams::new(request.subject_alt_names.clone()).map_err(|e| e.to_string())?;
    p.distinguished_name.push(rcgen::DnType::CommonName, request.common_name.as_str());
    p.distinguished_name.push(rcgen::DnType::OrganizationName, request.organization.as_str());
    p.self_signed(&key).map(|c| c.der().to_vec()).map_err(|e| e.to_string())
}

/// Generate a self-signed Ed25519 certificate for this peer, for the
/// request `certificate_request(hostname)`: the host name as subject
/// alternative name and common name, "S-KVM" as organization. The
/// certificate is the one rcgen makes for that request and the identity's
/// key; the fingerprint is that of the certificate. Key generation is random
/// and rcgen may refuse the name: every failure is a `CertGeneration` error.
pub fn generate_self_signed_cert(hostname: &str) -> (r: Result<TlsIdentity, TlsError>)
    ensures
        r matches Ok(id) ==> {
            &&& id.cert_der@ == self_signed_ed25519(request_for(hostname@), id.key_der@)
            &&& id.cert_der@.len() < SHA256_MAX_INPUT
            &&& id.fingerprint@ == fingerprint_text(sha256(id.cert_der@))
            &&& id.fingerprint@.len() == 95
        },
        r matches Err(e) ==> e is CertGeneration,
        !all_ascii(hostname@) ==> r is Err,
{
    let request = certificate_request(hostname);
    let key = ed25519_key_der();
    let cert = match &key {
        Ok(k) => self_signed_certificate(&request, k.as_slice()),
        Err(m) => Err(m.clone()),
    };
    proof {
        assert(request@.0[0] == hostname@);
        assert(request@.0.len() == 1);
    }
    identity_from_generated(key, cert)
}

/// The identity made of a generated key and certificate: with both at
/// hand, the key, the certificate and the certificate's fingerprint (a
/// certificate of 2^61 bytes or more cannot be fingerprinted and is an
/// error); otherwise the first failure, as a `CertGeneration` error.
pub fn identity_from_generated(key: Result<Vec<u8>, String>, cert: Result<Vec<u8>, String>) -> (r: Result<TlsIdentity, TlsError>)
    ensures
        match key {
            Err(m) => r matches Err(TlsError::CertGeneration(e)) && e@ == m@,
            Ok(k) => match cert {
                Err(m) => r matches Err(TlsError::CertGeneration(e)) && e@ == m@,
                Ok(c) => if c@.len() < SHA256_MAX_INPUT {
                    r matches Ok(id) && id.cert_der@ == c@ && id.key_der@ == k@
                        && id.fingerprint@ == fingerprint_text(sha256(c@)) && id.fingerprint@.len() == 95
                } else {
                    r matches Err(TlsError::CertGeneration(e)) && e@ == "certificate too large to fingerprint"@
                },
            },
        },
{
    let key_der = match key {
        Ok(k) => k,
        Err(m) => return Err(TlsError::CertGeneration(m)),
    };
    let cert_der = match cert {
        Ok(c) => c,
        Err(m) => return Err(TlsError::CertGeneration(m)),
    };
    if cert_der.len() as u64 >= SHA256_MAX_INPUT {
        return Err(TlsError::CertGeneration(String::from_str("certificate too large to fingerprint")));
    }
    let fingerprint = compute_fingerprint(cert_der.as_slice());
    Ok(TlsIdentity { cert_der, key_der, fingerprint })
}

/// The identity made of a stored certificate and key, with the
/// certificate's fingerprint.
pub fn load_identity(cert_der: Vec<u8>, key_der: Vec<u8>) -> (id: TlsIdentity)
    requires
        cert_der@.len() < SHA256_MAX_INPUT,
    ensures
        id.cert_der@ == cert_der@,
        id.key_der@ == key_der@,
        id.fingerprint@ == fingerprint_text(sha256(cert_der@)),
        id.fingerprint@.len() == 95,
{
    let fingerprint = compute_fingerprint(cert_der.as_slice());
    TlsIdentity { cert_der, key_der, fingerprint }
}

/// A certificate and key read from their files.
pub struct StoredIdentity {
    pub cert_der: Vec<u8>,
    pub key_der: Vec<u8>,
}

/// Load or generate the TLS identity. `stored` holds the certificate and
/// key when both files exist (the caller has read them); then they are
/// loaded. Otherwise a new self-signed certificate is generated for the
/// host name (which the caller then saves).
pub fn load_or_generate_identity(stored: Option<StoredIdentity>, hostname: &str) -> (r: Result<TlsIdentity, TlsError>)
    requires
        stored matches Some(s) ==> s.cert_der@.len() < SHA256_MAX_INPUT,
    ensures
        match stored {
            Some(s) => r matches Ok(id) && id.cert_der@ == s.cert_der@ && id.key_der@ == s.key_der@
                && id.fingerprint@ == fingerprint_text(sha256(s.cert_der@)) && id.fingerprint@.len() == 95,
            None => {
                &&& r matches Ok(id) ==> {
                    &&& id.cert_der@ == self_signed_ed25519(request_for(hostname@), id.key_der@)
                    &&& id.cert_der@.len() < SHA256_MAX_INPUT
                    &&& id.fingerprint@ == fingerprint_text(sha256(id.cert_der@))
                    &&& id.fingerprint@.len() == 95
                }
                &&& r matches Err(e) ==> e is CertGeneration
                &&& !all_ascii(hostname@) ==> r is Err
            },
        },
{
    match stored {
        Some(s) => Ok(load_identity(s.cert_der, s.key_der)),
        None => generate_self_signed_cert(hostname),
    }
}

/// The pairing code for a seed: its last six decimal digits, zero-padded.
pub fn pairing_code_from_seed(seed: u128) -> (s: String)
    ensures
        s@ == decimal_padded((seed % 1_000_000) as nat, 6),
{
    let code: u64 = (seed % 1_000_000) as u64;
    let mut s = String::new();
    push_decimal_padded(&mut s, code, 6);
    s
}

/// Generate a 6-digit pairing code from the clock's nanoseconds since the
/// Unix epoch (0 when the clock reads a time before the epoch).
pub fn generate_pairing_code() -> (s: String)
    ensures
        s@.len() == 6,
        forall|i: int| 0 <= i < 6 ==> is_ascii_digit(#[trigger] s@[i]),
{
    let seed = unix_time_nanos();
    let s = pairing_code_from_seed(seed);
    proof {
        lemma_decimal_padded_digits((seed % 1_000_000) as nat, 6);
    }
    s
}

} // verus!
