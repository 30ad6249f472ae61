use terong::{Certificate, Fingerprint, SingleCertVerifier};

const ABC_SHA256: &str = "ba7816bf8f01cfea414140de5dae2223b00361a396177a9cb410ff61f20015ad";

#[test]
fn fingerprint_is_sha256_of_certificate() {
    let cert = Certificate(b"abc".to_vec());
    assert_eq!(cert.fingerprint().to_hex(), ABC_SHA256);
}

#[test]
fn fingerprint_hex_is_lower_case_two_digits_per_byte() {
    let mut bytes = [0u8; 32];
    bytes[0] = 0x0f;
    bytes[1] = 0xa0;
    bytes[31] = 0xff;
    let hex = Fingerprint(bytes).to_hex();
    assert_eq!(hex.len(), 64);
    assert!(hex.starts_with("0fa0"));
    assert!(hex.ends_with("ff"));
}

#[test]
fn certificate_hex() {
    assert_eq!(Certificate(vec![1, 171, 255]).to_hex(), "01abff");
    assert_eq!(Certificate(vec![]).to_hex(), "");
}

#[test]
fn fingerprints_match_byte_for_byte() {
    let a = Fingerprint([3; 32]);
    let mut other = [3; 32];
    assert!(a.matches(&Fingerprint(other)));
    other[17] = 4;
    assert!(!a.matches(&Fingerprint(other)));
}

#[test]
fn verifier_pinned_to_certificate_accepts_only_it() {
    let a = vec![0x30, 0x82, 0x01, 0x0a];
    let b = vec![0x30, 0x82, 0x01, 0x0b];
    let verifier = SingleCertVerifier::new(Certificate(a.clone()));
    assert!(verifier.verify_cert(&a));
    assert!(!verifier.verify_cert(&b));
    assert!(!verifier.verify_cert(&a[..3]));
    assert!(!verifier.verify_cert(&[]));
}

#[test]
fn verifier_pinned_to_fingerprint_accepts_matching_digest() {
    let cert = Certificate(b"abc".to_vec());
    let verifier = SingleCertVerifier::from_fingerprint(cert.fingerprint());
    assert!(verifier.verify_cert(b"abc"));
    assert!(!verifier.verify_cert(b"abd"));
}

#[test]
fn verifiers_of_two_certificates_reject_each_other() {
    let a = Certificate(vec![1, 2, 3]);
    let b = Certificate(vec![1, 2, 4]);
    let pin_a = SingleCertVerifier::new(a.clone());
    let pin_b = SingleCertVerifier::from_fingerprint(b.fingerprint());
    assert!(!pin_a.verify_cert(&b.0));
    assert!(!pin_b.verify_cert(&a.0));
    assert!(pin_a.verify_cert(&a.0));
    assert!(pin_b.verify_cert(&b.0));
}
