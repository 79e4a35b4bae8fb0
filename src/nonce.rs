//! The nonce sequence of one direction of a session.

use vstd::prelude::*;
use crate::keys::NetworkId;
use crate::primitives::{hmac, hmac_of};

verus! {

/// The value of `s` read as a big-endian unsigned integer.
pub open spec fn be_value(s: Seq<u8>) -> nat
    decreases s.len(),
{
    if s.len() == 0 {
        0
    } else {
        be_value(s.drop_last()) * 256 + s.last() as nat
    }
}

/// `256` raised to `k`.
pub open spec fn pow256(k: nat) -> nat
    decreases k,
{
    if k == 0 {
        1
    } else {
        256 * pow256((k - 1) as nat)
    }
}

/// Produces 24-byte nonces: each call hands out the counter, then adds one
/// to it as a big-endian integer, wrapping at 2^192.
pub struct NonceGen {
    pub next_nonce: [u8; 24],
}

proof fn lemma_pow256_pos(k: nat)
    ensures
        pow256(k) >= 1,
    decreases k,
{
    if k > 0 {
        lemma_pow256_pos((k - 1) as nat);
    }
}

/// Reading a concatenation: the prefix is shifted left by the suffix's length.
proof fn lemma_be_concat(p: Seq<u8>, q: Seq<u8>)
    ensures
        be_value(p + q) == be_value(p) * pow256(q.len()) + be_value(q),
    decreases q.len(),
{
    if q.len() == 0 {
        assert(p + q =~= p);
        assert(pow256(0) == 1);
        assert(be_value(q) == 0);
        assert(be_value(p) * 1 == be_value(p));
    } else {
        let q0 = q.drop_last();
        assert((p + q).drop_last() =~= p + q0);
        lemma_be_concat(p, q0);
        assert((p + q).last() == q.last());
        assert(be_value(p + q) == be_value((p + q).drop_last()) * 256 + (p + q).last() as nat);
        assert(be_value(q) == be_value(q0) * 256 + q.last() as nat);
        assert(pow256(q.len()) == 256 * pow256(q0.len()));
        let a = be_value(p);
        let b = pow256(q0.len());
        let c = be_value(q0);
        let l = q.last() as nat;
        assert(be_value(p + q) == a * pow256(q.len()) + be_value(q)) by (nonlinear_arith)
            requires
                be_value(p + q) == be_value(p + q0) * 256 + l,
                be_value(p + q0) == a * b + c,
                be_value(q) == c * 256 + l,
                pow256(q.len()) == 256 * b,
        ;
    }
}

/// A run of `0xff` bytes is one less than the next power of 256.
proof fn lemma_be_all_ff(s: Seq<u8>)
    requires
        forall|j: int| 0 <= j < s.len() ==> s[j] == 0xff,
    ensures
        be_value(s) + 1 == pow256(s.len()),
    decreases s.len(),
{
    if s.len() > 0 {
        lemma_be_all_ff(s.drop_last());
    }
}

/// A run of zero bytes is zero.
proof fn lemma_be_all_zero(s: Seq<u8>)
    requires
        forall|j: int| 0 <= j < s.len() ==> s[j] == 0,
    ensures
        be_value(s) == 0,
    decreases s.len(),
{
    if s.len() > 0 {
        lemma_be_all_zero(s.drop_last());
    }
}

impl NonceGen {
    /// A generator whose first nonce is the first 24 bytes of the MAC of
    /// `eph_pk` under the network identifier.
    pub fn new(eph_pk: &[u8; 32], net_id: &NetworkId) -> (r: NonceGen)
        ensures
            r.next_nonce@ == hmac_of(net_id.0@, eph_pk@).subrange(0, 24),
    {
        let mut msg: Vec<u8> = Vec::new();
        let mut i: usize = 0;
        while i < 32
            invariant
                i <= 32,
                msg@ == eph_pk@.subrange(0, i as int),
            decreases 32 - i,
        {
            msg.push(eph_pk[i]);
            i += 1;
        }
        assert(msg@ =~= eph_pk@);
        let tag = hmac(&net_id.0, &msg);
        let mut n: [u8; 24] = [0u8; 24];
        let mut k: usize = 0;
        while k < 24
            invariant
                k <= 24,
                tag@ == hmac_of(net_id.0@, eph_pk@),
                forall|j: int| 0 <= j < k ==> n@[j] == tag@[j],
            decreases 24 - k,
        {
            n[k] = tag[k];
            k += 1;
        }
        assert(n@ =~= tag@.subrange(0, 24));
        NonceGen { next_nonce: n }
    }

    /// A generator whose first nonce is `nonce`.
    pub fn with_starting_nonce(nonce: [u8; 24]) -> (r: NonceGen)
        ensures
            r.next_nonce == nonce,
    {
        NonceGen { next_nonce: nonce }
    }

    /// Returns the current nonce and advances the counter by one.
    pub fn next(&mut self) -> (r: [u8; 24])
        ensures
            r == old(self).next_nonce,
            be_value(final(self).next_nonce@)
                == (be_value(old(self).next_nonce@) + 1) % pow256(24),
    {
        let r = self.next_nonce;
        let ghost o = self.next_nonce@;
        let mut n: [u8; 24] = self.next_nonce;
        let mut i: usize = 24;
        let mut carry: bool = true;
        while carry && i > 0
            invariant
                i <= 24,
                o == r@,
                o.len() == 24,
                n@.len() == 24,
                carry ==> n@.subrange(0, i as int) == o.subrange(0, i as int),
                carry ==> forall|j: int| i <= j < 24 ==> n@[j] == 0,
                carry ==> forall|j: int| i <= j < 24 ==> o[j] == 0xff,
                !carry ==> be_value(n@) == be_value(o) + 1,
                !carry ==> be_value(o) + 1 < pow256(24),
            decreases i,
        {
            i -= 1;
            let b = n[i].wrapping_add(1);
            proof {
                assert(o[i as int] == n@.subrange(0, i as int + 1)[i as int]);
            }
            let ghost before = n@;
            n[i] = b;
            assert(n@ == before.update(i as int, b));
            if b != 0 {
                carry = false;
                proof {
                    let ii = i as int;
                    assert(o[ii] < 0xff);
                    let k = (24 - ii - 1) as nat;
                    let op = o.subrange(0, ii + 1);
                    let os = o.subrange(ii + 1, 24);
                    let np = n@.subrange(0, ii + 1);
                    let ns = n@.subrange(ii + 1, 24);
                    assert(forall|j: int| 0 <= j < ns.len() ==> ns[j] == n@[ii + 1 + j]);
                    assert(forall|j: int| 0 <= j < os.len() ==> os[j] == o[ii + 1 + j]);
                    assert(o =~= op + os);
                    assert(n@ =~= np + ns);
                    lemma_be_concat(op, os);
                    lemma_be_concat(np, ns);
                    lemma_be_all_ff(os);
                    lemma_be_all_zero(ns);
                    assert(op.drop_last() =~= np.drop_last());
                    assert(be_value(np) == be_value(op) + 1);
                    let x = be_value(op);
                    let pk = pow256(k);
                    assert(x * pk + (pk - 1) + 1 == (x + 1) * pk) by (nonlinear_arith);
                    lemma_be_bound(n@);
                }
            } else {
                proof {
                    assert(o[i as int] == 0xff);
                    assert(n@.subrange(0, i as int) =~= o.subrange(0, i as int));
                    assert forall|j: int| i <= j < 24 implies n@[j] == 0 by {
                        if j > i {
                            assert(before[j] == 0);
                        }
                    }
                }
            }
        }
        proof {
            if carry {
                assert(i == 0);
                assert(o =~= o.subrange(0, 24));
                lemma_be_all_ff(o);
                assert(forall|j: int| 0 <= j < 24 ==> n@[j] == 0);
                lemma_be_all_zero(n@);
                lemma_pow256_pos(24);
                vstd::arithmetic::div_mod::lemma_mod_self_0(pow256(24) as int);
            } else {
                vstd::arithmetic::div_mod::lemma_small_mod(
                    (be_value(o) + 1) as nat,
                    pow256(24),
                );
            }
        }
        self.next_nonce = n;
        r
    }
}

/// A value of `k` bytes is below `pow256(k)`.
proof fn lemma_be_bound(s: Seq<u8>)
    ensures
        be_value(s) < pow256(s.len()),
    decreases s.len(),
{
    if s.len() > 0 {
        lemma_be_bound(s.drop_last());
        let x = be_value(s.drop_last());
        let p = pow256(s.drop_last().len());
        let d = s.last() as nat;
        assert(x * 256 + d < 256 * p) by (nonlinear_arith)
            requires
                x < p,
                d < 256,
        ;
    }
}

} // verus!
