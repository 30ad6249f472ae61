//! Certificate fingerprints and the verifier that trusts exactly one peer
//! certificate.

use vstd::prelude::*;

use crate::protocol::{bytes_equal, Certificate, Fingerprint};

verus! {

/// The SHA-256 digest of `data`.
pub uninterp spec fn sha256_of(data: Seq<u8>) -> Seq<u8>;

/// Relies on sha2's `Sha256::digest`: the SHA-256 digest of the bytes, which
/// depends on them alone.
#[verifier::external_body]
fn sha256(data: &[u8]) -> (r: Fingerprint)
    ensures
        r@ == sha256_of(data@),
{
    Fingerprint(<sha2::Sha256 as sha2::Digest>::digest(data).into())
}

/// The lower-case hexadecimal digit for `n`, which is below 16.
pub open spec fn hex_digit(n: u8) -> char {
    seq!['0', '1', '2', '3', '4', '5', '6', '7', '8', '9', 'a', 'b', 'c', 'd', 'e', 'f'][n as int]
}

/// Two lower-case hexadecimal digits for each byte, high digit first.
pub open spec fn hex_of(bytes: Seq<u8>) -> Seq<char>
    decreases bytes.len(),
{
    if bytes.len() == 0 {
        Seq::empty()
    } else {
        seq![hex_digit(bytes[0] / 16), hex_digit(bytes[0] % 16)] + hex_of(bytes.drop_first())
    }
}

/// Relies on `hex::encode`: two lower-case hexadecimal digits for each byte,
/// high digit first.
#[verifier::external_body]
fn hex_encode(data: &[u8]) -> (r: String)
    ensures
        r@ == hex_of(data@),
{
    hex::encode(data)
}

impl Fingerprint {
    /// The fingerprint in lower-case hexadecimal, as shown to an operator.
    pub fn to_hex(&self) -> (r: String)
        ensures
            r@ == hex_of(self@),
    {
        hex_encode(self.0.as_slice())
    }
}

impl Certificate {
    /// The fingerprint of this certificate: the digest of its raw encoding.
    pub fn fingerprint(&self) -> (r: Fingerprint)
        ensures
            r@ == sha256_of(self@),
    {
        sha256(self.0.as_slice())
    }

    /// The raw encoding in lower-case hexadecimal.
    pub fn to_hex(&self) -> (r: String)
        ensures
            r@ == hex_of(self@),
    {
        hex_encode(self.0.as_slice())
    }
}

/// What a verifier is pinned to.
pub enum Pin {
    /// A certificate's raw encoding.
    Certificate(Seq<u8>),
    /// A certificate's fingerprint.
    Fingerprint(Seq<u8>),
}

/// Whether a verifier pinned to `pin` accepts the certificate whose raw
/// encoding is `presented`.
pub open spec fn pin_accepts(pin: Pin, presented: Seq<u8>) -> bool {
    match pin {
        Pin::Certificate(cert) => presented == cert,
        Pin::Fingerprint(digest) => sha256_of(presented) == digest,
    }
}

#[derive(Clone, Debug)]
enum Pinned {
    Certificate(Certificate),
    Fingerprint(Fingerprint),
}

/// Verifier for a single known certificate: it accepts that certificate and
/// rejects every other, whoever signed it.
#[derive(Clone, Debug)]
pub struct SingleCertVerifier {
    pinned: Pinned,
}

impl View for SingleCertVerifier {
    type V = Pin;

    closed spec fn view(&self) -> Pin {
        match self.pinned {
            Pinned::Certificate(cert) => Pin::Certificate(cert@),
            Pinned::Fingerprint(digest) => Pin::Fingerprint(digest@),
        }
    }
}

impl SingleCertVerifier {
    /// A verifier pinned to the raw encoding of `cert`.
    pub fn new(cert: Certificate) -> (r: SingleCertVerifier)
        ensures
            r@ == Pin::Certificate(cert@),
    {
        SingleCertVerifier { pinned: Pinned::Certificate(cert) }
    }

    /// A verifier pinned to a certificate fingerprint.
    pub fn from_fingerprint(digest: Fingerprint) -> (r: SingleCertVerifier)
        ensures
            r@ == Pin::Fingerprint(digest@),
    {
        SingleCertVerifier { pinned: Pinned::Fingerprint(digest) }
    }

    /// Whether the certificate whose raw encoding is `presented` is the one
    /// pinned.
    pub fn verify_cert(&self, presented: &[u8]) -> (r: bool)
        ensures
            r == pin_accepts(self@, presented@),
    {
        match &self.pinned {
            Pinned::Certificate(cert) => bytes_equal(presented, cert.0.as_slice()),
            Pinned::Fingerprint(digest) => sha256(presented).matches(digest),
        }
    }
}

/// A verifier pinned to a certificate accepts exactly that certificate: any
/// other one, including a different but validly signed one, is rejected.
pub proof fn lemma_pinned_certificate(pinned: Seq<u8>, presented: Seq<u8>)
    ensures
        pin_accepts(Pin::Certificate(pinned), presented) <==> presented == pinned,
        presented != pinned ==> !pin_accepts(Pin::Certificate(pinned), presented),
{
}

/// A verifier pinned to a fingerprint accepts a certificate exactly when the
/// certificate's digest is that fingerprint.
pub proof fn lemma_pinned_fingerprint(digest: Seq<u8>, presented: Seq<u8>)
    ensures
        pin_accepts(Pin::Fingerprint(digest), presented) <==> sha256_of(presented) == digest,
{
}

} // verus!
