//! Secret Handshake: the four-message, mutually authenticating key exchange
//! that peers of a network run over a byte stream before they talk.

pub mod keys;
pub mod primitives;
pub mod nonce;
mod bytes;
pub mod codec;
pub mod session;
pub mod handshake;
