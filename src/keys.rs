use vstd::prelude::*;
use crate::bytes::{array32, array64};

verus! {

/// The 32-byte network identifier, used as the MAC key of both Hellos.
#[derive(Clone, Copy, Debug, PartialEq, Eq)]
pub struct NetworkId(pub [u8; 32]);

impl NetworkId {
    /// The identifier held in `b`, if `b` has exactly 32 bytes.
    pub fn from_slice(b: &[u8]) -> (r: Option<NetworkId>)
        ensures
            r is Some <==> b@.len() == 32,
            r matches Some(k) ==> k.0@ == b@,
    {
        match array32(b) {
            Some(a) => Some(NetworkId(a)),
            None => None,
        }
    }

    /// The identifier of the main network.
    pub fn main_net() -> (r: NetworkId)
        ensures
            r.0@ == main_net_bytes(),
    {
        let r = NetworkId([
            0xd4, 0xa1, 0xcb, 0x88, 0xa6, 0x6f, 0x02, 0xf8, 0xdb, 0x63, 0x5c, 0xe2, 0x64, 0x41,
            0xcc, 0x5d, 0xac, 0x1b, 0x08, 0x42, 0x0c, 0xea, 0xac, 0x23, 0x08, 0x39, 0xb7, 0x55,
            0x84, 0x5a, 0x9f, 0xfb,
        ]);
        assert(r.0@ =~= main_net_bytes());
        r
    }
}

/// The bytes of the main network's identifier.
pub open spec fn main_net_bytes() -> Seq<u8> {
    seq![
        0xd4u8, 0xa1, 0xcb, 0x88, 0xa6, 0x6f, 0x02, 0xf8, 0xdb, 0x63, 0x5c, 0xe2, 0x64, 0x41,
        0xcc, 0x5d, 0xac, 0x1b, 0x08, 0x42, 0x0c, 0xea, 0xac, 0x23, 0x08, 0x39, 0xb7, 0x55,
        0x84, 0x5a, 0x9f, 0xfb,
    ]
}

/// A client's long-term Ed25519 verifying key.
#[derive(Clone, Copy, Debug, PartialEq, Eq)]
pub struct ClientPublicKey(pub [u8; 32]);

impl ClientPublicKey {
    /// The key held in `b`, if `b` has exactly 32 bytes.
    pub fn from_slice(b: &[u8]) -> (r: Option<ClientPublicKey>)
        ensures
            r is Some <==> b@.len() == 32,
            r matches Some(k) ==> k.0@ == b@,
    {
        match array32(b) {
            Some(a) => Some(ClientPublicKey(a)),
            None => None,
        }
    }
}

/// A client's long-term Ed25519 signing key.
#[derive(Clone, Copy)]
pub struct ClientSecretKey(pub [u8; 64]);

impl ClientSecretKey {
    /// The key held in `b`, if `b` has exactly 64 bytes.
    pub fn from_slice(b: &[u8]) -> (r: Option<ClientSecretKey>)
        ensures
            r is Some <==> b@.len() == 64,
            r matches Some(k) ==> k.0@ == b@,
    {
        match array64(b) {
            Some(a) => Some(ClientSecretKey(a)),
            None => None,
        }
    }
}

/// A server's long-term Ed25519 verifying key.
#[derive(Clone, Copy, Debug, PartialEq, Eq)]
pub struct ServerPublicKey(pub [u8; 32]);

impl ServerPublicKey {
    /// The key held in `b`, if `b` has exactly 32 bytes.
    pub fn from_slice(b: &[u8]) -> (r: Option<ServerPublicKey>)
        ensures
            r is Some <==> b@.len() == 32,
            r matches Some(k) ==> k.0@ == b@,
    {
        match array32(b) {
            Some(a) => Some(ServerPublicKey(a)),
            None => None,
        }
    }
}

/// A server's long-term Ed25519 signing key.
#[derive(Clone, Copy)]
pub struct ServerSecretKey(pub [u8; 64]);

impl ServerSecretKey {
    /// The key held in `b`, if `b` has exactly 64 bytes.
    pub fn from_slice(b: &[u8]) -> (r: Option<ServerSecretKey>)
        ensures
            r is Some <==> b@.len() == 64,
            r matches Some(k) ==> k.0@ == b@,
    {
        match array64(b) {
            Some(a) => Some(ServerSecretKey(a)),
            None => None,
        }
    }
}

/// A client's Curve25519 public key for one handshake.
#[derive(Clone, Copy, Debug, PartialEq, Eq)]
pub struct ClientEphPublicKey(pub [u8; 32]);

/// A client's Curve25519 secret scalar for one handshake.
#[derive(Clone, Copy)]
pub struct ClientEphSecretKey(pub [u8; 32]);

/// A server's Curve25519 public key for one handshake.
#[derive(Clone, Copy, Debug, PartialEq, Eq)]
pub struct ServerEphPublicKey(pub [u8; 32]);

/// A server's Curve25519 secret scalar for one handshake.
#[derive(Clone, Copy)]
pub struct ServerEphSecretKey(pub [u8; 32]);

/// Shared secret of the two ephemeral keys.
#[derive(Clone, Copy)]
pub struct SharedA(pub [u8; 32]);

/// Shared secret of the client's ephemeral key and the server's long-term key.
#[derive(Clone, Copy)]
pub struct SharedB(pub [u8; 32]);

/// Shared secret of the client's long-term key and the server's ephemeral key.
#[derive(Clone, Copy)]
pub struct SharedC(pub [u8; 32]);

/// The ways a handshake ends without a session.
#[derive(Clone, Copy, Debug, PartialEq, Eq, Structural)]
pub enum HandshakeError {
    /// The stream failed, or ended before a whole message came.
    TransportError,
    /// A message was handed over with the wrong length.
    BadLength,
    /// The MAC of a ClientHello or ServerHello did not verify.
    HelloAuthFailure,
    /// A ClientAuth did not open, or its signature did not verify.
    ClientAuthFailure,
    /// A ServerAccept did not open, or its signature did not verify.
    ServerAcceptFailure,
    /// A key conversion or a Diffie-Hellman step gave no valid result.
    KeyConversionFailure,
}

} // verus!
