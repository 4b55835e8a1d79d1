//! Derived authorities: deterministic, provably keyless addresses computed
//! from a program identity and a seed sequence.
//!
//! An address is *on-curve* when a private key could exist for it. A derived
//! address is an unforgeable authority only when it is off-curve: then the
//! sole way to assert control of it is to reproduce the exact
//! `(owner_program, seeds, bump)` tuple that hashed to it. The owner program
//! identity is bound into the hash, which is what defeats the confused
//! deputy: a proof for one program's derivation says nothing under another
//! program's identity.

use crate::errors::CoreError;
use crate::identity::{append_bytes, bytes_eq, Identity};
use vstd::prelude::*;

verus! {

/// The 32-byte digest that the one-way transform returns for the given
/// input bytes. The digest depends on the input alone.
pub uninterp spec fn hash32_of(input: Seq<u8>) -> Seq<u8>;

/// Whether the given bytes are an address that can have an associated
/// private key. A function of the bytes alone.
pub uninterp spec fn on_curve_of(addr: Seq<u8>) -> bool;

/// Relies on `solana_program::hash::hashv`: the SHA-256 digest of the input,
/// 32 bytes, a function of the input bytes alone.
#[verifier::external_body]
fn sha256(input: &Vec<u8>) -> (r: Vec<u8>)
    ensures
        r@ == hash32_of(input@),
        r@.len() == 32,
{
    solana_program::hash::hashv(&[input.as_slice()]).to_bytes().to_vec()
}

/// Relies on `solana_program::pubkey::bytes_are_curve_point`: whether the
/// bytes decompress to a valid ed25519 curve point, a function of the bytes
/// alone; bytes of the wrong length are never a curve point.
#[verifier::external_body]
fn bytes_on_curve(addr: &Vec<u8>) -> (r: bool)
    ensures
        r == on_curve_of(addr@),
{
    solana_program::pubkey::bytes_are_curve_point(addr.as_slice())
}

/// Whether a private key may exist for the address: the partition of the
/// address space that decides which derived addresses are unforgeable.
pub fn on_curve(addr: &Identity) -> (r: bool)
    ensures
        r == on_curve_of(addr@),
{
    bytes_on_curve(addr)
}

/// The domain-separation tag appended to every derivation preimage.
pub open spec fn domain_tag() -> Seq<u8> {
    seq![
        0x44u8,
        0x65u8,
        0x72u8,
        0x69u8,
        0x76u8,
        0x65u8,
        0x64u8,
        0x41u8,
        0x75u8,
        0x74u8,
        0x68u8,
        0x6fu8,
        0x72u8,
        0x69u8,
        0x74u8,
        0x79u8,
    ]
}

fn domain_tag_bytes() -> (r: Vec<u8>)
    ensures
        r@ == domain_tag(),
{
    let out: Vec<u8> = vec![
        0x44u8, 0x65u8, 0x72u8, 0x69u8, 0x76u8, 0x65u8, 0x64u8, 0x41u8, 0x75u8, 0x74u8, 0x68u8,
        0x6fu8, 0x72u8, 0x69u8, 0x74u8, 0x79u8,
    ];
    assert(out@ =~= domain_tag());
    out
}

/// The seed byte-strings joined in order.
pub open spec fn seeds_concat(seeds: Seq<Seq<u8>>) -> Seq<u8>
    decreases seeds.len(),
{
    if seeds.len() == 0 {
        Seq::empty()
    } else {
        seeds[0] + seeds_concat(seeds.drop_first())
    }
}

proof fn lemma_seeds_concat_snoc(s: Seq<Seq<u8>>, i: int)
    requires
        0 <= i < s.len(),
    ensures
        seeds_concat(s.take(i + 1)) == seeds_concat(s.take(i)) + s[i],
    decreases i,
{
    if i == 0 {
        assert(s.take(0) =~= Seq::<Seq<u8>>::empty());
        let one = s.take(1);
        assert(one.len() == 1 && one[0] == s[0]);
        assert(one.drop_first() =~= Seq::<Seq<u8>>::empty());
        assert(seeds_concat(Seq::<Seq<u8>>::empty()) == Seq::<u8>::empty());
        assert(seeds_concat(one) == s[0] + Seq::<u8>::empty());
        assert(s[0] + Seq::<u8>::empty() =~= Seq::<u8>::empty() + s[0]);
    } else {
        let t = s.drop_first();
        lemma_seeds_concat_snoc(t, i - 1);
        assert(s.take(i + 1).drop_first() =~= t.take(i));
        assert(s.take(i).drop_first() =~= t.take(i - 1));
        assert(s.take(i + 1)[0] == s[0] && s.take(i)[0] == s[0]);
        assert(s[0] + (seeds_concat(t.take(i - 1)) + t[i - 1]) =~= (s[0] + seeds_concat(
            t.take(i - 1),
        )) + s[i]);
    }
}

/// The preimage hashed for a candidate derived address:
/// `seeds ‖ [bump] ‖ owner_program ‖ DOMAIN_TAG`.
pub open spec fn preimage_of(owner: Seq<u8>, seeds: Seq<Seq<u8>>, bump: u8) -> Seq<u8> {
    seeds_concat(seeds) + seq![bump] + owner + domain_tag()
}

/// The candidate derived address for the given inputs.
pub open spec fn derived_address(owner: Seq<u8>, seeds: Seq<Seq<u8>>, bump: u8) -> Seq<u8> {
    hash32_of(preimage_of(owner, seeds, bump))
}

/// Whether `bump` makes the derived address off-curve, hence keyless and
/// valid as an unforgeable authority.
pub open spec fn valid_bump(owner: Seq<u8>, seeds: Seq<Seq<u8>>, bump: u8) -> bool {
    !on_curve_of(derived_address(owner, seeds, bump))
}

/// Whether `bump` is the least bump value that makes the derived address
/// off-curve: the one the derivation search returns.
pub open spec fn first_valid_bump(owner: Seq<u8>, seeds: Seq<Seq<u8>>, bump: u8) -> bool {
    valid_bump(owner, seeds, bump) && forall|b: u8|
        b < bump ==> !(#[trigger] valid_bump(owner, seeds, b))
}

/// Whether some bump value in `0..=255` yields an off-curve derived
/// address, so that the derivation search succeeds.
pub open spec fn derivable(owner: Seq<u8>, seeds: Seq<Seq<u8>>) -> bool {
    exists|b: u8| #[trigger] first_valid_bump(owner, seeds, b)
}

/// Whether `verify` accepts the tuple: the address equals the derived
/// address for `(owner, seeds, bump)` and is off-curve.
pub open spec fn verify_spec(addr: Seq<u8>, owner: Seq<u8>, seeds: Seq<Seq<u8>>, bump: u8) -> bool {
    addr == derived_address(owner, seeds, bump) && !on_curve_of(addr)
}

fn build_preimage(owner: &Identity, seeds: &Vec<Vec<u8>>, bump: u8) -> (r: Vec<u8>)
    ensures
        r@ == preimage_of(owner@, seeds.deep_view(), bump),
{
    let ghost sdv = seeds.deep_view();
    let mut out: Vec<u8> = Vec::new();
    let n = seeds.len();
    proof {
        assert(sdv.len() == n);
    }
    let mut i: usize = 0;
    while i < n
        invariant
            n == seeds@.len(),
            sdv == seeds.deep_view(),
            i <= n,
            out@ == seeds_concat(sdv.take(i as int)),
        decreases n - i,
    {
        proof {
            assert(sdv[i as int] == seeds@[i as int]@);
            lemma_seeds_concat_snoc(sdv, i as int);
        }
        append_bytes(&mut out, &seeds[i]);
        i += 1;
    }
    proof {
        assert(sdv.take(n as int) =~= sdv);
    }
    out.push(bump);
    append_bytes(&mut out, owner);
    let tag = domain_tag_bytes();
    append_bytes(&mut out, &tag);
    proof {
        assert(seeds_concat(sdv).push(bump) =~= seeds_concat(sdv) + seq![bump]);
    }
    out
}

fn compute_candidate(owner: &Identity, seeds: &Vec<Vec<u8>>, bump: u8) -> (r: Vec<u8>)
    ensures
        r@ == derived_address(owner@, seeds.deep_view(), bump),
        r@.len() == 32,
{
    let preimage = build_preimage(owner, seeds, bump);
    sha256(&preimage)
}

/// Searches bump values `0..=255` in increasing order and returns the first
/// `(address, bump)` whose derived address is off-curve. Deterministic: the
/// result is pinned to the least valid bump for the inputs.
pub fn derive(owner_program: &Identity, seeds: &Vec<Vec<u8>>) -> (r: Result<
    (Identity, u8),
    CoreError,
>)
    ensures
        match r {
            Ok(out) => {
                &&& out.0@ == derived_address(owner_program@, seeds.deep_view(), out.1)
                &&& out.0@.len() == 32
                &&& first_valid_bump(owner_program@, seeds.deep_view(), out.1)
                &&& !on_curve_of(out.0@)
            },
            Err(e) => {
                &&& e == CoreError::ExhaustedBumpSpace
                &&& forall|b: u8| !(#[trigger] valid_bump(owner_program@, seeds.deep_view(), b))
            },
        },
{
    let ghost sdv = seeds.deep_view();
    let mut bump: u16 = 0;
    while bump <= 255
        invariant
            sdv == seeds.deep_view(),
            bump <= 256,
            forall|b: u8| (b as int) < (bump as int) ==> !(#[trigger] valid_bump(
                owner_program@,
                sdv,
                b,
            )),
        decreases 256 - bump,
    {
        let candidate = compute_candidate(owner_program, seeds, bump as u8);
        if !bytes_on_curve(&candidate) {
            return Ok((candidate, bump as u8));
        }
        bump += 1;
    }
    Err(CoreError::ExhaustedBumpSpace)
}

/// Recomputes the derived address for `(owner_program, seeds, bump)` and
/// returns true iff it equals `address` and `address` is off-curve. A
/// program proves with this that it is entitled to assert authority over
/// `address` before invoking with it marked as a signer.
pub fn verify(address: &Identity, owner_program: &Identity, seeds: &Vec<Vec<u8>>, bump: u8) -> (r:
    bool)
    ensures
        r == verify_spec(address@, owner_program@, seeds.deep_view(), bump),
{
    let candidate = compute_candidate(owner_program, seeds, bump);
    if !bytes_eq(address, &candidate) {
        return false;
    }
    !bytes_on_curve(address)
}

/// A claim of derived authority over an account: the seeds and bump that,
/// under the executing program's identity, hash to the account's address.
pub struct SeedProof {
    /// The account whose authority is asserted.
    pub account: Identity,
    /// The seed byte-strings of the derivation.
    pub seeds: Vec<Vec<u8>>,
    /// The bump value of the derivation.
    pub bump: u8,
}

/// Derivation is deterministic: for fixed `(owner, seeds)` there is at most
/// one least valid bump, and with it one derived address.
pub proof fn lemma_derive_deterministic(owner: Seq<u8>, seeds: Seq<Seq<u8>>, b1: u8, b2: u8)
    requires
        first_valid_bump(owner, seeds, b1),
        first_valid_bump(owner, seeds, b2),
    ensures
        b1 == b2,
        derived_address(owner, seeds, b1) == derived_address(owner, seeds, b2),
{
    if b1 < b2 {
        assert(!valid_bump(owner, seeds, b1));
    }
    if b2 < b1 {
        assert(!valid_bump(owner, seeds, b2));
    }
}

/// Every successful derivation output passes `verify` for the same inputs.
pub proof fn lemma_derive_output_verifies(
    owner: Seq<u8>,
    seeds: Seq<Seq<u8>>,
    addr: Seq<u8>,
    bump: u8,
)
    requires
        addr == derived_address(owner, seeds, bump),
        valid_bump(owner, seeds, bump),
    ensures
        verify_spec(addr, owner, seeds, bump),
{
}

} // verus!
