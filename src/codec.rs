//! The byte layouts of the four handshake messages.

use vstd::prelude::*;
use crate::bytes::{push_array, push_slice, take32};
use crate::keys::{HandshakeError, NetworkId};
use crate::primitives::{hmac, hmac_of, hmac_verify};

verus! {

/// Length of a ClientHello or ServerHello.
pub const HELLO_LEN: usize = 64;

/// Length of a ClientAuth.
pub const CLIENT_AUTH_LEN: usize = 112;

/// Length of a ServerAccept.
pub const SERVER_ACCEPT_LEN: usize = 80;

/// What a receiver makes of a frame of `got` bytes where `expected` are due:
/// fewer means the stream ended early, more is a caller's mistake.
pub open spec fn frame_error(got: nat, expected: nat) -> Option<HandshakeError> {
    if got < expected {
        Some(HandshakeError::TransportError)
    } else if got > expected {
        Some(HandshakeError::BadLength)
    } else {
        None
    }
}

/// Checks the length of a received frame.
pub fn check_frame(got: usize, expected: usize) -> (r: Result<(), HandshakeError>)
    ensures
        r matches Err(e) ==> frame_error(got as nat, expected as nat) == Some(e),
        r is Ok ==> frame_error(got as nat, expected as nat) is None,
{
    if got < expected {
        Err(HandshakeError::TransportError)
    } else if got > expected {
        Err(HandshakeError::BadLength)
    } else {
        Ok(())
    }
}

/// A ClientHello or a ServerHello: a MAC and the ephemeral key it covers.
#[derive(Clone, Copy, Debug, PartialEq, Eq)]
pub struct Hello {
    pub mac: [u8; 32],
    pub eph_pk: [u8; 32],
}

/// The wire form of a Hello.
pub open spec fn hello_bytes(mac: Seq<u8>, eph_pk: Seq<u8>) -> Seq<u8> {
    mac + eph_pk
}

/// The parts of a wire Hello, if it has the right length.
pub open spec fn hello_parts(b: Seq<u8>) -> Option<(Seq<u8>, Seq<u8>)> {
    if b.len() == 64 {
        Some((b.subrange(0, 32), b.subrange(32, 64)))
    } else {
        None
    }
}

/// The Hello of `eph_pk` on the network `net`.
pub open spec fn hello_for(net: Seq<u8>, eph_pk: Seq<u8>) -> Seq<u8> {
    hello_bytes(hmac_of(net, eph_pk), eph_pk)
}

impl Hello {
    /// The Hello that announces `eph_pk` on the network `net_id`.
    pub fn new(eph_pk: &[u8; 32], net_id: &NetworkId) -> (r: Hello)
        ensures
            r.mac@ == hmac_of(net_id.0@, eph_pk@),
            r.eph_pk == *eph_pk,
    {
        let mut msg: Vec<u8> = Vec::new();
        push_array(&mut msg, eph_pk);
        assert(msg@ =~= eph_pk@);
        Hello { mac: hmac(&net_id.0, &msg), eph_pk: *eph_pk }
    }

    /// The 64 wire bytes: the MAC, then the key.
    pub fn to_bytes(&self) -> (r: Vec<u8>)
        ensures
            r@ == hello_bytes(self.mac@, self.eph_pk@),
    {
        let mut v: Vec<u8> = Vec::new();
        push_array(&mut v, &self.mac);
        push_array(&mut v, &self.eph_pk);
        assert(v@ =~= self.mac@ + self.eph_pk@);
        v
    }

    /// Splits 64 wire bytes into MAC and key.
    pub fn from_bytes(b: &[u8]) -> (r: Result<Hello, HandshakeError>)
        ensures
            r matches Ok(h) ==> hello_parts(b@) == Some((h.mac@, h.eph_pk@)),
            r matches Err(e) ==> hello_parts(b@) is None && e == HandshakeError::BadLength,
    {
        if b.len() == HELLO_LEN {
            Ok(Hello { mac: take32(b, 0), eph_pk: take32(b, 32) })
        } else {
            Err(HandshakeError::BadLength)
        }
    }

    /// The ephemeral key, if the MAC is that of the key under `net_id`.
    pub fn verify(&self, net_id: &NetworkId) -> (r: Result<[u8; 32], HandshakeError>)
        ensures
            r is Ok <==> self.mac@ == hmac_of(net_id.0@, self.eph_pk@),
            r matches Ok(k) ==> k == self.eph_pk,
            r matches Err(e) ==> e == HandshakeError::HelloAuthFailure,
    {
        if hmac_verify(&net_id.0, &self.mac, &self.eph_pk) {
            Ok(self.eph_pk)
        } else {
            Err(HandshakeError::HelloAuthFailure)
        }
    }
}

/// A sealed message (ClientAuth or ServerAccept): ciphertext of a fixed length.
#[derive(Debug, PartialEq, Eq)]
pub struct Sealed {
    pub ciphertext: Vec<u8>,
}

impl Sealed {
    /// Takes `b` as a sealed message of `len` bytes.
    pub fn from_bytes(b: &[u8], len: usize) -> (r: Result<Sealed, HandshakeError>)
        ensures
            r matches Ok(s) ==> b@.len() == len && s.ciphertext@ == b@,
            r matches Err(e) ==> b@.len() != len && e == HandshakeError::BadLength,
    {
        if b.len() == len {
            let mut v: Vec<u8> = Vec::new();
            push_slice(&mut v, b);
            assert(v@ =~= b@);
            Ok(Sealed { ciphertext: v })
        } else {
            Err(HandshakeError::BadLength)
        }
    }

    /// The wire bytes.
    pub fn to_bytes(&self) -> (r: Vec<u8>)
        ensures
            r@ == self.ciphertext@,
    {
        let mut v: Vec<u8> = Vec::new();
        push_slice(&mut v, self.ciphertext.as_slice());
        assert(v@ =~= self.ciphertext@);
        v
    }
}

/// Parsing the wire form of a Hello gives back its MAC and key.
pub proof fn lemma_hello_round_trip(mac: Seq<u8>, eph_pk: Seq<u8>)
    requires
        mac.len() == 32,
        eph_pk.len() == 32,
    ensures
        hello_parts(hello_bytes(mac, eph_pk)) == Some((mac, eph_pk)),
{
    let b = hello_bytes(mac, eph_pk);
    assert(b.subrange(0, 32) =~= mac);
    assert(b.subrange(32, 64) =~= eph_pk);
}

/// Writing the parts of a wire Hello gives back the same bytes.
pub proof fn lemma_hello_parts_rebuild(b: Seq<u8>)
    requires
        b.len() == 64,
    ensures
        hello_parts(b) matches Some((m, k)) && hello_bytes(m, k) == b,
{
    assert(b.subrange(0, 32) + b.subrange(32, 64) =~= b);
}

} // verus!
