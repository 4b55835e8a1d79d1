//! Identities: fixed-width opaque byte strings naming programs and accounts.

use vstd::prelude::*;

verus! {

/// An address naming a program or an account: a 32-byte string when the
/// surrounding runtime produces it, opaque here; equality is byte-wise.
pub type Identity = Vec<u8>;

/// Byte-wise equality of two byte strings.
pub fn bytes_eq(a: &Vec<u8>, b: &Vec<u8>) -> (r: bool)
    ensures
        r == (a@ == b@),
{
    if a.len() != b.len() {
        assert(a@ != b@) by {
            assert(a@.len() != b@.len());
        }
        return false;
    }
    let n = a.len();
    let mut i: usize = 0;
    while i < n
        invariant
            n == a@.len(),
            n == b@.len(),
            i <= n,
            forall|j: int| 0 <= j < i ==> a@[j] == b@[j],
        decreases n - i,
    {
        if a[i] != b[i] {
            return false;
        }
        i += 1;
    }
    assert(a@ =~= b@);
    true
}

/// A fresh copy of a byte string.
pub fn copy_bytes(a: &Vec<u8>) -> (r: Vec<u8>)
    ensures
        r@ == a@,
{
    let mut out: Vec<u8> = Vec::new();
    let n = a.len();
    let mut i: usize = 0;
    while i < n
        invariant
            n == a@.len(),
            i <= n,
            out@ == a@.take(i as int),
        decreases n - i,
    {
        out.push(a[i]);
        assert(a@.take(i as int).push(a@[i as int]) =~= a@.take(i + 1 as int));
        i += 1;
    }
    assert(a@.take(n as int) =~= a@);
    out
}

/// Appends all of `src` to `out`.
pub fn append_bytes(out: &mut Vec<u8>, src: &Vec<u8>)
    ensures
        final(out)@ == old(out)@ + src@,
{
    let ghost orig = out@;
    let n = src.len();
    let mut i: usize = 0;
    while i < n
        invariant
            n == src@.len(),
            i <= n,
            out@ == orig + src@.take(i as int),
        decreases n - i,
    {
        out.push(src[i]);
        assert((orig + src@.take(i as int)).push(src@[i as int]) =~= orig + src@.take(
            i + 1 as int,
        ));
        i += 1;
    }
    assert(orig + src@.take(n as int) =~= orig + src@);
}

} // verus!
