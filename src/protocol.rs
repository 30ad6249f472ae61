//! The messages that client and server exchange, and the certificate data
//! they carry.

use vstd::prelude::*;

use crate::input_event::InputEvent;

verus! {

/// SHA-256 digest of a certificate's raw encoding: the only basis of trust
/// between the two peers.
#[derive(Clone, Copy, Debug, PartialEq, Eq)]
pub struct Fingerprint(pub [u8; 32]);

impl View for Fingerprint {
    type V = Seq<u8>;

    open spec fn view(&self) -> Seq<u8> {
        self.0@
    }
}

/// Byte-for-byte equality of two byte strings.
pub fn bytes_equal(a: &[u8], b: &[u8]) -> (r: bool)
    ensures
        r == (a@ == b@),
{
    if a.len() != b.len() {
        return false;
    }
    let mut i: usize = 0;
    while i < a.len()
        invariant
            a@.len() == b@.len(),
            i <= a@.len(),
            forall|j: int| 0 <= j < i ==> a@[j] == b@[j],
        decreases a@.len() - i,
    {
        if a[i] != b[i] {
            return false;
        }
        i = i + 1;
    }
    assert(a@ =~= b@);
    true
}

impl Fingerprint {
    /// Whether two fingerprints are equal, byte for byte.
    pub fn matches(&self, other: &Fingerprint) -> (r: bool)
        ensures
            r == (self@ == other@),
    {
        bytes_equal(self.0.as_slice(), other.0.as_slice())
    }
}

/// A DER-encoded certificate.
#[derive(Clone, Debug, PartialEq, Eq)]
pub struct Certificate(pub Vec<u8>);

impl View for Certificate {
    type V = Seq<u8>;

    open spec fn view(&self) -> Seq<u8> {
        self.0@
    }
}

/// A DER-encoded private key.
#[derive(Clone, Debug, PartialEq, Eq)]
pub struct PrivateKey(pub Vec<u8>);

/// First message of a client: the version it runs.
#[derive(Clone, Debug, PartialEq, Eq)]
pub struct HelloMessage {
    pub client_version: String,
}

/// The server's offer to secure the connection, with the fingerprint of the
/// certificate it will present.
#[derive(Clone, Copy, Debug, PartialEq, Eq)]
pub struct UpgradeTransportRequest {
    pub server_tls_cert_hash: Fingerprint,
}

/// The client's answer to an upgrade offer, with the fingerprint of the
/// certificate it will present.
#[derive(Clone, Copy, Debug, PartialEq, Eq)]
pub struct UpgradeTransportResponse {
    pub client_tls_cert_hash: Fingerprint,
}

/// Why a server turned a client away.
#[derive(Clone, Copy, Debug, PartialEq, Eq, Structural)]
pub enum HelloReplyError {
    VersionMismatch,
}

/// The server's answer to a hello: the offer to secure the connection, or
/// the reason the client is turned away.
#[derive(Clone, Copy, Debug, PartialEq, Eq)]
pub enum HelloReply {
    Accepted(UpgradeTransportRequest),
    Rejected(HelloReplyError),
}

/// Messages from client to server.
#[derive(Clone, Debug, PartialEq, Eq)]
pub enum ClientMessage {
    Hello(HelloMessage),
    UpgradeTransportResponse(UpgradeTransportResponse),
}

/// Messages from server to client.
#[derive(Clone, Copy, Debug, PartialEq, Eq)]
pub enum ServerMessage {
    HelloReply(HelloReply),
    Event(InputEvent),
}

/// Marks the types that travel as protocol messages.
pub trait Message {}

impl Message for ClientMessage {}

impl Message for ServerMessage {}

} // verus!
