use s_kvm::quic::{check_frame_length, encode_frame, QuicError};
use s_kvm::tls::{
    compute_fingerprint, generate_pairing_code, generate_self_signed_cert, load_identity, load_or_generate_identity,
    certificate_request, identity_from_generated, pairing_code_from_seed, StoredIdentity, TlsError,
};

#[test]
fn generate_self_signed_cert_succeeds() {
    let identity = generate_self_signed_cert("test-machine").unwrap();
    assert!(!identity.cert_der.is_empty());
    assert!(!identity.key_der.is_empty());
    assert!(!identity.fingerprint.is_empty());
}

#[test]
fn fingerprint_is_sha256_hex() {
    let identity = generate_self_signed_cert("test").unwrap();
    assert_eq!(identity.fingerprint.len(), 95);
    assert!(identity.fingerprint.chars().all(|c| c.is_ascii_hexdigit() || c == ':'));
}

#[test]
fn fingerprint_is_deterministic_for_same_cert() {
    let identity = generate_self_signed_cert("test").unwrap();
    let fp1 = compute_fingerprint(&identity.cert_der);
    let fp2 = compute_fingerprint(&identity.cert_der);
    assert_eq!(fp1, fp2);
}

#[test]
fn different_certs_have_different_fingerprints() {
    let id1 = generate_self_signed_cert("machine-1").unwrap();
    let id2 = generate_self_signed_cert("machine-2").unwrap();
    assert_ne!(id1.fingerprint, id2.fingerprint);
}

#[test]
fn pairing_code_is_six_digits() {
    let code = generate_pairing_code();
    assert_eq!(code.len(), 6);
    assert!(code.chars().all(|c| c.is_ascii_digit()));
}

#[test]
fn fingerprint_of_known_input() {
    assert_eq!(
        compute_fingerprint(b"abc"),
        "BA:78:16:BF:8F:01:CF:EA:41:41:40:DE:5D:AE:22:23:B0:03:61:A3:96:17:7A:9C:B4:10:FF:61:F2:00:15:AD"
    );
}

#[test]
fn pairing_code_from_known_seeds() {
    assert_eq!(pairing_code_from_seed(123), "000123");
    assert_eq!(pairing_code_from_seed(9_999_999), "999999");
    assert_eq!(pairing_code_from_seed(1_000_000), "000000");
}

#[test]
fn load_identity_keeps_bytes() {
    let id = load_identity(b"abc".to_vec(), vec![9, 9]);
    assert_eq!(id.cert_der, b"abc".to_vec());
    assert_eq!(id.key_der, vec![9, 9]);
    assert_eq!(id.fingerprint, compute_fingerprint(b"abc"));
}

#[test]
fn load_or_generate_creates_new() {
    let identity = load_or_generate_identity(None, "test").unwrap();
    assert!(!identity.fingerprint.is_empty());
    assert_eq!(identity.fingerprint, compute_fingerprint(&identity.cert_der));
}

#[test]
fn load_or_generate_loads_existing() {
    let first = load_or_generate_identity(None, "test").unwrap();
    let stored = StoredIdentity { cert_der: first.cert_der.clone(), key_der: first.key_der.clone() };
    let second = load_or_generate_identity(Some(stored), "test").unwrap();
    assert_eq!(first.fingerprint, second.fingerprint);
    assert_eq!(first.key_der, second.key_der);
}

#[test]
fn frame_is_length_prefixed() {
    assert_eq!(encode_frame(&[1, 2, 3]), vec![0, 0, 0, 3, 1, 2, 3]);
    assert_eq!(encode_frame(&[]), vec![0, 0, 0, 0]);
}

#[test]
fn frame_length_checked_against_limit() {
    assert_eq!(check_frame_length([0, 1, 0, 0]).unwrap(), 65536);
    match check_frame_length([0, 1, 0, 1]) {
        Err(QuicError::Read(m)) => assert_eq!(m, "Message too large: 65537 bytes"),
        other => panic!("unexpected {:?}", other),
    }
}

#[test]
fn frame_roundtrip() {
    let data: Vec<u8> = (0..300u32).map(|i| i as u8).collect();
    let f = encode_frame(&data);
    let n = check_frame_length([f[0], f[1], f[2], f[3]]).unwrap();
    assert_eq!(n, data.len());
    assert_eq!(&f[4..], &data[..]);
}

#[test]
fn certificate_request_names_the_host() {
    let r = certificate_request("desk-1");
    assert_eq!(r.subject_alt_names, vec!["desk-1".to_string()]);
    assert_eq!(r.common_name, "desk-1");
    assert_eq!(r.organization, "S-KVM");
}

#[test]
fn generated_fingerprint_has_95_chars() {
    let id = load_or_generate_identity(None, "host").unwrap();
    assert_eq!(id.fingerprint.len(), 95);
}

#[test]
fn identity_from_generated_outcomes() {
    let id = identity_from_generated(Ok(vec![1, 2]), Ok(b"abc".to_vec())).unwrap();
    assert_eq!(id.key_der, vec![1, 2]);
    assert_eq!(id.cert_der, b"abc".to_vec());
    assert_eq!(id.fingerprint, compute_fingerprint(b"abc"));
    match identity_from_generated(Err("no entropy".into()), Err("unused".into())) {
        Err(TlsError::CertGeneration(m)) => assert_eq!(m, "no entropy"),
        _ => panic!("expected a key error"),
    }
    match identity_from_generated(Ok(vec![1]), Err("bad name".into())) {
        Err(TlsError::CertGeneration(m)) => assert_eq!(m, "bad name"),
        _ => panic!("expected a certificate error"),
    }
}

#[test]
fn non_ascii_host_name_is_refused() {
    assert!(matches!(generate_self_signed_cert("höst"), Err(TlsError::CertGeneration(_))));
}
