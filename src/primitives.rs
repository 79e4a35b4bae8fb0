//! The cryptographic operations the handshake is built from. Each result is
//! named by an uninterpreted function of the inputs: the algorithms are
//! libsodium's, reached through `ssb_crypto`.

use vstd::prelude::*;

verus! {

/// HMAC-SHA-512/256 of `msg` under `key`, truncated to 32 bytes.
pub uninterp spec fn hmac_of(key: Seq<u8>, msg: Seq<u8>) -> Seq<u8>;

/// SHA-256 of `msg`.
pub uninterp spec fn sha256_of(msg: Seq<u8>) -> Seq<u8>;

/// The detached Ed25519 signature of `msg` under the signing key `sk`.
pub uninterp spec fn signature_of(sk: Seq<u8>, msg: Seq<u8>) -> Seq<u8>;

/// Whether `sig` is a valid Ed25519 signature of `msg` under `pk`.
pub uninterp spec fn signature_valid(pk: Seq<u8>, sig: Seq<u8>, msg: Seq<u8>) -> bool;

/// The secretbox of `msg` under `key` with the all-zero nonce.
pub uninterp spec fn sealed_of(key: Seq<u8>, msg: Seq<u8>) -> Seq<u8>;

/// What opening the secretbox `ct` under `key` with the all-zero nonce gives.
pub uninterp spec fn opened_of(key: Seq<u8>, ct: Seq<u8>) -> Option<Seq<u8>>;

/// Curve25519 scalar multiplication; `None` where the result is the zero element.
pub uninterp spec fn dh_of(scalar: Seq<u8>, point: Seq<u8>) -> Option<Seq<u8>>;

/// Scalar multiplication with an Ed25519 verifying key mapped to its Curve25519 point.
pub uninterp spec fn dh_ed_point_of(scalar: Seq<u8>, ed_pk: Seq<u8>) -> Option<Seq<u8>>;

/// Scalar multiplication with an Ed25519 signing key mapped to its Curve25519 scalar.
pub uninterp spec fn dh_ed_scalar_of(ed_sk: Seq<u8>, point: Seq<u8>) -> Option<Seq<u8>>;

/// Relies on `ssb_crypto::NetworkKey::authenticate` (libsodium `crypto_auth`):
/// a 32-byte tag that depends on the key and the message alone.
#[verifier::external_body]
pub(crate) fn hmac(key: &[u8; 32], msg: &Vec<u8>) -> (r: [u8; 32])
    ensures
        r@ == hmac_of(key@, msg@),
{
    ssb_crypto::NetworkKey::from_slice(&key[..]).unwrap().authenticate(msg.as_slice()).0
}

/// Relies on `ssb_crypto::NetworkKey::verify` (libsodium `crypto_auth_verify`):
/// true exactly when `tag` is the tag of `msg` under `key`.
#[verifier::external_body]
pub(crate) fn hmac_verify(key: &[u8; 32], tag: &[u8; 32], msg: &[u8; 32]) -> (r: bool)
    ensures
        r == (tag@ == hmac_of(key@, msg@)),
{
    ssb_crypto::NetworkKey::from_slice(&key[..]).unwrap().verify(&ssb_crypto::AuthTag(*tag), &msg[..])
}

/// Relies on `ssb_crypto::hash::hash` (SHA-256).
#[verifier::external_body]
pub(crate) fn sha256(msg: &Vec<u8>) -> (r: [u8; 32])
    ensures
        r@ == sha256_of(msg@),
{
    ssb_crypto::hash::hash(msg.as_slice()).0
}

/// Relies on `ssb_crypto::sign_detached`: Ed25519 signing is deterministic.
#[verifier::external_body]
pub(crate) fn sign(sk: &[u8; 64], msg: &Vec<u8>) -> (r: [u8; 64])
    ensures
        r@ == signature_of(sk@, msg@),
{
    ssb_crypto::sign_detached(msg.as_slice(), &ssb_crypto::SecretKey(*sk)).0
}

/// Relies on `ssb_crypto::verify_detached`: whether `sig` is a signature of
/// `msg` under `pk`.
#[verifier::external_body]
pub(crate) fn verify_signature(pk: &[u8; 32], sig: &[u8; 64], msg: &Vec<u8>) -> (r: bool)
    ensures
        r == signature_valid(pk@, sig@, msg@),
{
    let sig = ssb_crypto::Signature(*sig);
    ssb_crypto::verify_detached(&sig, msg.as_slice(), &ssb_crypto::PublicKey(*pk))
}

/// Relies on `ssb_crypto::secretbox::seal`: the ciphertext is the message
/// length plus a 16-byte tag.
#[verifier::external_body]
pub(crate) fn seal(key: &[u8; 32], msg: &Vec<u8>) -> (r: Vec<u8>)
    ensures
        r@ == sealed_of(key@, msg@),
        r@.len() == msg@.len() + 16,
{
    let nonce = ssb_crypto::secretbox::Nonce([0u8; 24]);
    ssb_crypto::secretbox::seal(msg.as_slice(), &nonce, &ssb_crypto::secretbox::Key(*key))
}

/// Relies on `ssb_crypto::secretbox::open`: fails on input shorter than the
/// 16-byte tag, and the opened message is 16 bytes shorter than the input.
#[verifier::external_body]
pub(crate) fn open(key: &[u8; 32], ct: &Vec<u8>) -> (r: Option<Vec<u8>>)
    ensures
        r matches Some(m) ==> opened_of(key@, ct@) == Some(m@) && m@.len() + 16 == ct@.len(),
        r is None ==> opened_of(key@, ct@) is None,
{
    let nonce = ssb_crypto::secretbox::Nonce([0u8; 24]);
    ssb_crypto::secretbox::open(ct.as_slice(), &nonce, &ssb_crypto::secretbox::Key(*key)).ok()
}

/// Relies on `ssb_crypto::handshake::derive_shared_secret`.
#[verifier::external_body]
pub(crate) fn dh(scalar: &[u8; 32], point: &[u8; 32]) -> (r: Option<[u8; 32]>)
    ensures
        r matches Some(s) ==> dh_of(scalar@, point@) == Some(s@),
        r is None ==> dh_of(scalar@, point@) is None,
{
    let sk = ssb_crypto::handshake::EphSecretKey(*scalar);
    let pk = ssb_crypto::handshake::EphPublicKey(*point);
    ssb_crypto::handshake::derive_shared_secret(&sk, &pk).map(|s| s.0)
}

/// Relies on `ssb_crypto::handshake::derive_shared_secret_pk`.
#[verifier::external_body]
pub(crate) fn dh_ed_point(scalar: &[u8; 32], ed_pk: &[u8; 32]) -> (r: Option<[u8; 32]>)
    ensures
        r matches Some(s) ==> dh_ed_point_of(scalar@, ed_pk@) == Some(s@),
        r is None ==> dh_ed_point_of(scalar@, ed_pk@) is None,
{
    let sk = ssb_crypto::handshake::EphSecretKey(*scalar);
    let pk = ssb_crypto::PublicKey(*ed_pk);
    ssb_crypto::handshake::derive_shared_secret_pk(&sk, &pk).map(|s| s.0)
}

/// Relies on `ssb_crypto::handshake::derive_shared_secret_sk`.
#[verifier::external_body]
pub(crate) fn dh_ed_scalar(ed_sk: &[u8; 64], point: &[u8; 32]) -> (r: Option<[u8; 32]>)
    ensures
        r matches Some(s) ==> dh_ed_scalar_of(ed_sk@, point@) == Some(s@),
        r is None ==> dh_ed_scalar_of(ed_sk@, point@) is None,
{
    let sk = ssb_crypto::SecretKey(*ed_sk);
    let pk = ssb_crypto::handshake::EphPublicKey(*point);
    ssb_crypto::handshake::derive_shared_secret_sk(&sk, &pk).map(|s| s.0)
}

/// Relies on `shs_core::client::generate_eph_keypair`: a fresh random pair.
#[verifier::external_body]
pub(crate) fn client_eph_keypair() -> (r: ([u8; 32], [u8; 32])) {
    let (pk, sk) = shs_core::client::generate_eph_keypair();
    ((pk.0).0, (sk.0).0)
}

/// Relies on `shs_core::server::generate_eph_keypair`: a fresh random pair.
#[verifier::external_body]
pub(crate) fn server_eph_keypair() -> (r: ([u8; 32], [u8; 32])) {
    let (pk, sk) = shs_core::server::generate_eph_keypair();
    ((pk.0).0, (sk.0).0)
}

} // verus!
