//! What a finished handshake hands to the transport: two keys and two nonce
//! sequences.

use vstd::prelude::*;
use crate::bytes::push_array;
use crate::keys::{NetworkId, SharedA, SharedB, SharedC};
use crate::nonce::NonceGen;
use crate::primitives::{hmac_of, sha256, sha256_of};

verus! {

/// The double hash of the network identifier and the three shared secrets.
pub open spec fn session_hash_of(net: Seq<u8>, a: Seq<u8>, b: Seq<u8>, c: Seq<u8>) -> Seq<u8> {
    sha256_of(sha256_of(net + a + b + c))
}

/// The key that encrypts traffic towards the holder of the long-term key `pk`.
pub open spec fn session_key_of(
    net: Seq<u8>,
    a: Seq<u8>,
    b: Seq<u8>,
    c: Seq<u8>,
    pk: Seq<u8>,
) -> Seq<u8> {
    sha256_of(session_hash_of(net, a, b, c) + pk)
}

/// The first nonce of the direction whose receiver announced `eph_pk`.
pub open spec fn nonce_seed_of(net: Seq<u8>, eph_pk: Seq<u8>) -> Seq<u8> {
    hmac_of(net, eph_pk).subrange(0, 24)
}

/// The session state a successful handshake produces.
pub struct HandshakeOutcome {
    pub read_key: [u8; 32],
    pub read_noncegen: NonceGen,
    pub write_key: [u8; 32],
    pub write_noncegen: NonceGen,
}

/// An outcome as bytes: read key, first read nonce, write key, first write nonce.
pub open spec fn outcome_view(o: HandshakeOutcome) -> (Seq<u8>, Seq<u8>, Seq<u8>, Seq<u8>) {
    (o.read_key@, o.read_noncegen.next_nonce@, o.write_key@, o.write_noncegen.next_nonce@)
}

/// The client's outcome, from the identities, ephemeral keys and shared secrets.
pub open spec fn client_outcome_of(
    net: Seq<u8>,
    client_pk: Seq<u8>,
    server_pk: Seq<u8>,
    client_eph_pk: Seq<u8>,
    server_eph_pk: Seq<u8>,
    a: Seq<u8>,
    b: Seq<u8>,
    c: Seq<u8>,
) -> (Seq<u8>, Seq<u8>, Seq<u8>, Seq<u8>) {
    (
        session_key_of(net, a, b, c, client_pk),
        nonce_seed_of(net, client_eph_pk),
        session_key_of(net, a, b, c, server_pk),
        nonce_seed_of(net, server_eph_pk),
    )
}

/// The server's outcome, from the identities, ephemeral keys and shared secrets.
pub open spec fn server_outcome_of(
    net: Seq<u8>,
    client_pk: Seq<u8>,
    server_pk: Seq<u8>,
    client_eph_pk: Seq<u8>,
    server_eph_pk: Seq<u8>,
    a: Seq<u8>,
    b: Seq<u8>,
    c: Seq<u8>,
) -> (Seq<u8>, Seq<u8>, Seq<u8>, Seq<u8>) {
    (
        session_key_of(net, a, b, c, server_pk),
        nonce_seed_of(net, server_eph_pk),
        session_key_of(net, a, b, c, client_pk),
        nonce_seed_of(net, client_eph_pk),
    )
}

/// The key for traffic towards the holder of `pk`:
/// `sha256(sha256(sha256(net ‖ a ‖ b ‖ c)) ‖ pk)`.
pub fn session_key(
    net_id: &NetworkId,
    a: &SharedA,
    b: &SharedB,
    c: &SharedC,
    pk: &[u8; 32],
) -> (r: [u8; 32])
    ensures
        r@ == session_key_of(net_id.0@, a.0@, b.0@, c.0@, pk@),
{
    let mut v: Vec<u8> = Vec::new();
    push_array(&mut v, &net_id.0);
    push_array(&mut v, &a.0);
    push_array(&mut v, &b.0);
    push_array(&mut v, &c.0);
    assert(v@ =~= net_id.0@ + a.0@ + b.0@ + c.0@);
    let h1 = sha256(&v);
    let mut w: Vec<u8> = Vec::new();
    push_array(&mut w, &h1);
    assert(w@ =~= h1@);
    let h2 = sha256(&w);
    let mut x: Vec<u8> = Vec::new();
    push_array(&mut x, &h2);
    push_array(&mut x, pk);
    assert(x@ =~= h2@ + pk@);
    sha256(&x)
}

/// When both sides hold the same network identifier, identities, ephemeral
/// keys and shared secrets, what one side writes with is what the other
/// reads with: the keys match and the nonce sequences start together.
pub proof fn lemma_outcomes_mirror(
    net: Seq<u8>,
    client_pk: Seq<u8>,
    server_pk: Seq<u8>,
    client_eph_pk: Seq<u8>,
    server_eph_pk: Seq<u8>,
    a: Seq<u8>,
    b: Seq<u8>,
    c: Seq<u8>,
)
    ensures
        ({
            let co = client_outcome_of(net, client_pk, server_pk, client_eph_pk, server_eph_pk, a, b, c);
            let so = server_outcome_of(net, client_pk, server_pk, client_eph_pk, server_eph_pk, a, b, c);
            co.2 == so.0 && co.3 == so.1 && co.0 == so.2 && co.1 == so.3
        }),
{
}

} // verus!
