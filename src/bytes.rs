//! Copying bytes between arrays, slices and vectors.

use vstd::prelude::*;

verus! {

/// Appends the bytes of `a` to `v`.
pub(crate) fn push_array<const N: usize>(v: &mut Vec<u8>, a: &[u8; N])
    ensures
        final(v)@ == old(v)@ + a@,
{
    let ghost start = v@;
    let mut i: usize = 0;
    while i < N
        invariant
            i <= N,
            a@.len() == N,
            v@ == start + a@.subrange(0, i as int),
        decreases N - i,
    {
        v.push(a[i]);
        i += 1;
        assert(v@ =~= start + a@.subrange(0, i as int));
    }
    assert(a@.subrange(0, N as int) =~= a@);
}

/// Appends the bytes of `b` to `v`.
pub(crate) fn push_slice(v: &mut Vec<u8>, b: &[u8])
    ensures
        final(v)@ == old(v)@ + b@,
{
    let ghost start = v@;
    let mut i: usize = 0;
    while i < b.len()
        invariant
            i <= b@.len(),
            v@ == start + b@.subrange(0, i as int),
        decreases b@.len() - i,
    {
        v.push(b[i]);
        i += 1;
        assert(v@ =~= start + b@.subrange(0, i as int));
    }
    assert(b@.subrange(0, b@.len() as int) =~= b@);
}

/// The 32 bytes of `b` that start at `start`.
pub(crate) fn take32(b: &[u8], start: usize) -> (r: [u8; 32])
    requires
        start + 32 <= b@.len(),
    ensures
        r@ == b@.subrange(start as int, start + 32),
{
    let mut r: [u8; 32] = [0u8; 32];
    let mut k: usize = 0;
    let len: usize = b.len();
    while k < 32
        invariant
            k <= 32,
            len == b@.len(),
            start + 32 <= b@.len(),
            forall|j: int| 0 <= j < k ==> r@[j] == b@[start + j],
        decreases 32 - k,
    {
        r[k] = b[start + k];
        k += 1;
    }
    assert(r@ =~= b@.subrange(start as int, start + 32));
    r
}

/// The 64 bytes of `b` that start at `start`.
pub(crate) fn take64(b: &[u8], start: usize) -> (r: [u8; 64])
    requires
        start + 64 <= b@.len(),
    ensures
        r@ == b@.subrange(start as int, start + 64),
{
    let mut r: [u8; 64] = [0u8; 64];
    let mut k: usize = 0;
    let len: usize = b.len();
    while k < 64
        invariant
            k <= 64,
            len == b@.len(),
            start + 64 <= b@.len(),
            forall|j: int| 0 <= j < k ==> r@[j] == b@[start + j],
        decreases 64 - k,
    {
        r[k] = b[start + k];
        k += 1;
    }
    assert(r@ =~= b@.subrange(start as int, start + 64));
    r
}

/// The bytes of `b` as an array of 32, if it holds exactly 32.
pub(crate) fn array32(b: &[u8]) -> (r: Option<[u8; 32]>)
    ensures
        r is Some <==> b@.len() == 32,
        r matches Some(a) ==> a@ == b@,
{
    if b.len() == 32 {
        let a = take32(b, 0);
        assert(a@ =~= b@);
        Some(a)
    } else {
        None
    }
}

/// The bytes of `b` as an array of 64, if it holds exactly 64.
pub(crate) fn array64(b: &[u8]) -> (r: Option<[u8; 64]>)
    ensures
        r is Some <==> b@.len() == 64,
        r matches Some(a) ==> a@ == b@,
{
    if b.len() == 64 {
        let a = take64(b, 0);
        assert(a@ =~= b@);
        Some(a)
    } else {
        None
    }
}

} // verus!
