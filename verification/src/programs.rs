//! The two forwarding programs built on the invoke protocol: one that
//! re-forwards a signature it already holds, and one that asserts a derived
//! authority over the data account it passes on.

use crate::account::{AccountMetaReq, AccountView, Instruction};
use crate::authority::{derivable, first_valid_bump, valid_bump, verify_spec, SeedProof};
use crate::counter::counter_next_data;
use crate::errors::{CoreError, ProgramError};
use crate::identity::copy_bytes;
use crate::invoke::{
    all_signers_granted, authority_granted, invoke, program_registered, proof_grants, sig_held,
    InvocationContext, Registry, MAX_DEPTH,
};
use vstd::prelude::*;

verus! {

/// The constant first seed of the forwarded data account's derivation.
pub open spec fn pda_seed_tag() -> Seq<u8> {
    seq![
        0x64u8,
        0x61u8,
        0x74u8,
        0x61u8,
        0x5fu8,
        0x61u8,
        0x63u8,
        0x63u8,
        0x6fu8,
        0x75u8,
        0x6eu8,
        0x74u8,
    ]
}

fn pda_seed_bytes() -> (r: Vec<u8>)
    ensures
        r@ == pda_seed_tag(),
{
    let out: Vec<u8> = vec![
        0x64u8, 0x61u8, 0x74u8, 0x61u8, 0x5fu8, 0x61u8, 0x63u8, 0x63u8, 0x6fu8, 0x75u8, 0x6eu8,
        0x74u8,
    ];
    assert(out@ =~= pda_seed_tag());
    out
}

/// The seed sequence the derived-authority forwarder uses: the constant tag
/// followed by the user's address.
pub open spec fn forward_seeds(user: Seq<u8>) -> Seq<Seq<u8>> {
    seq![pda_seed_tag(), user]
}

/// Whether the derived-authority forwarder can justify signer status for
/// the data account `pda`: a signature held upstream, or `pda` is the
/// derived address that the search finds under the forwarder's own
/// identity for the seeds `[tag, user]`.
pub open spec fn forward_authority(ctx: InvocationContext, pda: Seq<u8>, user: Seq<u8>) -> bool {
    sig_held(ctx.held_signatures@, pda) || exists|b: u8|
        #[trigger] first_valid_bump(ctx.executing_program@, forward_seeds(user), b) && verify_spec(
            pda,
            ctx.executing_program@,
            forward_seeds(user),
            b,
        )
}

/// A byte vector's deep view is its view.
proof fn lemma_bytes_deep_view(v: Vec<u8>)
    ensures
        v.deep_view() == v@,
{
    assert(v.deep_view() =~= v@);
}

/// A forwarding program: passes the first account on to the program named
/// by the second account, requesting signer status for it on the strength
/// of a signature the current context already holds.
///
/// Expects at least two accounts: the data account, then the target
/// program's account; the runtime's account loading provides that shape.
pub fn forward_entrypoint(
    ctx: &InvocationContext,
    accounts: &mut Vec<AccountView>,
    payload: &Vec<u8>,
    registry: &Registry,
) -> (r: Result<(), CoreError>)
    requires
        old(accounts)@.len() >= 2,
    ensures
        final(accounts)@.len() == old(accounts)@.len(),
        forall|i: int| 1 <= i < final(accounts)@.len() ==> final(accounts)@[i] == old(accounts)@[i],
        match r {
            Err(CoreError::MissingRequiredAuthority) => {
                &&& !sig_held(ctx.held_signatures@, old(accounts)@[0].identity@)
                &&& final(accounts)@[0] == old(accounts)@[0]
            },
            Err(CoreError::InvocationDepthExceeded) => {
                &&& sig_held(ctx.held_signatures@, old(accounts)@[0].identity@)
                &&& ctx.depth + 1 > MAX_DEPTH
                &&& final(accounts)@[0] == old(accounts)@[0]
            },
            Err(CoreError::UnknownProgram) => {
                &&& sig_held(ctx.held_signatures@, old(accounts)@[0].identity@)
                &&& ctx.depth + 1 <= MAX_DEPTH
                &&& !program_registered(registry.entries@, old(accounts)@[1].identity@)
                &&& final(accounts)@[0] == old(accounts)@[0]
            },
            Err(CoreError::Callee(e)) => {
                &&& sig_held(ctx.held_signatures@, old(accounts)@[0].identity@)
                &&& ctx.depth + 1 <= MAX_DEPTH
                &&& program_registered(registry.entries@, old(accounts)@[1].identity@)
                &&& ((e == ProgramError::InvalidAccountOwner && old(accounts)@[0].owner@ != old(
                    accounts,
                )@[1].identity@) || (e == ProgramError::InvalidAccountData && old(
                    accounts,
                )@[0].owner@ == old(accounts)@[1].identity@ && old(accounts)@[0].data@.len() != 4))
                &&& final(accounts)@[0] == old(accounts)@[0]
            },
            Err(CoreError::ExhaustedBumpSpace) => false,
            Ok(()) => {
                &&& sig_held(ctx.held_signatures@, old(accounts)@[0].identity@)
                &&& ctx.depth + 1 <= MAX_DEPTH
                &&& program_registered(registry.entries@, old(accounts)@[1].identity@)
                &&& old(accounts)@[0].owner@ == old(accounts)@[1].identity@
                &&& old(accounts)@[0].data@.len() == 4
                &&& final(accounts)@[0].identity == old(accounts)@[0].identity
                &&& final(accounts)@[0].owner == old(accounts)@[0].owner
                &&& final(accounts)@[0].is_signer == old(accounts)@[0].is_signer
                &&& final(accounts)@[0].is_writable == old(accounts)@[0].is_writable
                &&& final(accounts)@[0].data@ == counter_next_data(old(accounts)@[0].data@)
            },
        },
{
    let ghost orig = accounts@;
    let target = copy_bytes(&accounts[1].identity);
    let meta_id = copy_bytes(&accounts[0].identity);
    let mut metas: Vec<AccountMetaReq> = Vec::new();
    metas.push(
        AccountMetaReq { identity: meta_id, is_signer_request: true, is_writable_request: true },
    );
    let instruction = Instruction {
        target_program: target,
        accounts: metas,
        payload: copy_bytes(payload),
    };
    let proofs: Vec<SeedProof> = Vec::new();
    let mut fwd: Vec<AccountView> = Vec::new();
    let a0 = accounts.remove(0);
    fwd.push(a0);
    let ghost pda_id = orig[0].identity@;
    proof {
        assert(instruction.accounts@[0].identity@ == pda_id);
        assert(!proof_grants(proofs@, ctx.executing_program@, pda_id));
        if sig_held(ctx.held_signatures@, pda_id) {
            assert forall|i: int|
                0 <= i < instruction.accounts@.len() && (#[trigger] instruction.accounts@[i]).is_signer_request implies authority_granted(
                *ctx,
                proofs@,
                instruction.accounts@[i].identity@,
            ) by {
                assert(i == 0);
            }
            assert(all_signers_granted(*ctx, proofs@, instruction.accounts@));
        } else {
            assert(!authority_granted(*ctx, proofs@, instruction.accounts@[0].identity@));
            assert(!all_signers_granted(*ctx, proofs@, instruction.accounts@));
        }
    }
    let res = invoke(ctx, &instruction, &proofs, &mut fwd, registry);
    let back = fwd.remove(0);
    accounts.insert(0, back);
    proof {
        assert forall|i: int| 1 <= i < accounts@.len() implies accounts@[i] == orig[i] by {
            assert(accounts@[i] == orig.remove(0)[i - 1]);
            assert(orig.remove(0)[i - 1] == orig[i]);
        }
        if res is Err {
            assert(accounts@[0] == orig[0]);
        }
    }
    res
}

/// A forwarding program that vouches for a derived authority: derives the
/// bump for its own identity and the seeds `["data_account", user]`, and
/// passes the first account on to the target program as a signer, supplying
/// the seed proof. The proof grants authority exactly when the first
/// account's address is the derived address for *this* program's identity —
/// a derivation under any other program's identity proves nothing here.
///
/// Expects at least three accounts: the derived data account, the user
/// account whose address is the second seed, then the target program's
/// account; the runtime's account loading provides that shape.
pub fn process_instruction(
    ctx: &InvocationContext,
    accounts: &mut Vec<AccountView>,
    payload: &Vec<u8>,
    registry: &Registry,
) -> (r: Result<(), CoreError>)
    requires
        old(accounts)@.len() >= 3,
    ensures
        final(accounts)@.len() == old(accounts)@.len(),
        forall|i: int| 1 <= i < final(accounts)@.len() ==> final(accounts)@[i] == old(accounts)@[i],
        match r {
            Err(CoreError::ExhaustedBumpSpace) => {
                &&& !derivable(
                    ctx.executing_program@,
                    forward_seeds(old(accounts)@[1].identity@),
                )
                &&& final(accounts)@[0] == old(accounts)@[0]
            },
            Err(CoreError::MissingRequiredAuthority) => {
                &&& derivable(ctx.executing_program@, forward_seeds(old(accounts)@[1].identity@))
                &&& !forward_authority(*ctx, old(accounts)@[0].identity@, old(accounts)@[1].identity@)
                &&& final(accounts)@[0] == old(accounts)@[0]
            },
            Err(CoreError::InvocationDepthExceeded) => {
                &&& derivable(ctx.executing_program@, forward_seeds(old(accounts)@[1].identity@))
                &&& forward_authority(*ctx, old(accounts)@[0].identity@, old(accounts)@[1].identity@)
                &&& ctx.depth + 1 > MAX_DEPTH
                &&& final(accounts)@[0] == old(accounts)@[0]
            },
            Err(CoreError::UnknownProgram) => {
                &&& derivable(ctx.executing_program@, forward_seeds(old(accounts)@[1].identity@))
                &&& forward_authority(*ctx, old(accounts)@[0].identity@, old(accounts)@[1].identity@)
                &&& ctx.depth + 1 <= MAX_DEPTH
                &&& !program_registered(registry.entries@, old(accounts)@[2].identity@)
                &&& final(accounts)@[0] == old(accounts)@[0]
            },
            Err(CoreError::Callee(e)) => {
                &&& derivable(ctx.executing_program@, forward_seeds(old(accounts)@[1].identity@))
                &&& forward_authority(*ctx, old(accounts)@[0].identity@, old(accounts)@[1].identity@)
                &&& ctx.depth + 1 <= MAX_DEPTH
                &&& program_registered(registry.entries@, old(accounts)@[2].identity@)
                &&& ((e == ProgramError::InvalidAccountOwner && old(accounts)@[0].owner@ != old(
                    accounts,
                )@[2].identity@) || (e == ProgramError::InvalidAccountData && old(
                    accounts,
                )@[0].owner@ == old(accounts)@[2].identity@ && old(accounts)@[0].data@.len() != 4))
                &&& final(accounts)@[0] == old(accounts)@[0]
            },
            Ok(()) => {
                &&& derivable(ctx.executing_program@, forward_seeds(old(accounts)@[1].identity@))
                &&& forward_authority(*ctx, old(accounts)@[0].identity@, old(accounts)@[1].identity@)
                &&& ctx.depth + 1 <= MAX_DEPTH
                &&& program_registered(registry.entries@, old(accounts)@[2].identity@)
                &&& old(accounts)@[0].owner@ == old(accounts)@[2].identity@
                &&& old(accounts)@[0].data@.len() == 4
                &&& final(accounts)@[0].identity == old(accounts)@[0].identity
                &&& final(accounts)@[0].owner == old(accounts)@[0].owner
                &&& final(accounts)@[0].is_signer == old(accounts)@[0].is_signer
                &&& final(accounts)@[0].is_writable == old(accounts)@[0].is_writable
                &&& final(accounts)@[0].data@ == counter_next_data(old(accounts)@[0].data@)
            },
        },
{
    let ghost orig = accounts@;
    let tag = pda_seed_bytes();
    let user_seed = copy_bytes(&accounts[1].identity);
    let mut seeds: Vec<Vec<u8>> = Vec::new();
    seeds.push(tag);
    seeds.push(user_seed);
    proof {
        lemma_bytes_deep_view(seeds@[0]);
        lemma_bytes_deep_view(seeds@[1]);
        assert(seeds.deep_view() =~= forward_seeds(orig[1].identity@));
    }
    let bump = match crate::authority::derive(&ctx.executing_program, &seeds) {
        Ok(p) => p.1,
        Err(e) => {
            proof {
                assert forall|b: u8| !(#[trigger] first_valid_bump(
                    ctx.executing_program@,
                    forward_seeds(orig[1].identity@),
                    b,
                )) by {
                    assert(!valid_bump(ctx.executing_program@, forward_seeds(orig[1].identity@), b));
                }
            }
            return Err(e);
        },
    };
    let proof0 = SeedProof { account: copy_bytes(&accounts[0].identity), seeds, bump };
    let mut proofs: Vec<SeedProof> = Vec::new();
    proofs.push(proof0);
    let target = copy_bytes(&accounts[2].identity);
    let meta_id = copy_bytes(&accounts[0].identity);
    let mut metas: Vec<AccountMetaReq> = Vec::new();
    metas.push(
        AccountMetaReq { identity: meta_id, is_signer_request: true, is_writable_request: true },
    );
    let instruction = Instruction {
        target_program: target,
        accounts: metas,
        payload: copy_bytes(payload),
    };
    let mut fwd: Vec<AccountView> = Vec::new();
    let a0 = accounts.remove(0);
    fwd.push(a0);
    let ghost pda_id = orig[0].identity@;
    let ghost program = ctx.executing_program@;
    let ghost sds = forward_seeds(orig[1].identity@);
    proof {
        assert(instruction.accounts@[0].identity@ == pda_id);
        assert(proofs@[0].account@ == pda_id);
        assert(proofs@[0].seeds.deep_view() == sds);
        assert(proofs@[0].bump == bump);
        // the single proof grants exactly when verify accepts the derived bump
        if verify_spec(pda_id, program, sds, bump) {
            assert(proof_grants(proofs@, program, pda_id));
        } else {
            assert forall|j: int|
                0 <= j < proofs@.len() implies !((#[trigger] proofs@[j]).account@ == pda_id
                && verify_spec(
                pda_id,
                program,
                proofs@[j].seeds.deep_view(),
                proofs@[j].bump,
            )) by {
                assert(j == 0);
            }
            assert(!proof_grants(proofs@, program, pda_id));
        }
        if authority_granted(*ctx, proofs@, pda_id) {
            assert forall|i: int|
                0 <= i < instruction.accounts@.len() && (#[trigger] instruction.accounts@[i]).is_signer_request implies authority_granted(
                *ctx,
                proofs@,
                instruction.accounts@[i].identity@,
            ) by {
                assert(i == 0);
            }
            assert(all_signers_granted(*ctx, proofs@, instruction.accounts@));
        } else {
            assert(!all_signers_granted(*ctx, proofs@, instruction.accounts@));
        }
        // the named authority condition coincides with what validation sees
        assert(forward_authority(*ctx, pda_id, orig[1].identity@) == (sig_held(
            ctx.held_signatures@,
            pda_id,
        ) || verify_spec(pda_id, program, sds, bump))) by {
            if verify_spec(pda_id, program, sds, bump) {
                assert(first_valid_bump(program, sds, bump) && verify_spec(
                    pda_id,
                    program,
                    sds,
                    bump,
                ));
            }
            if forward_authority(*ctx, pda_id, orig[1].identity@) && !sig_held(
                ctx.held_signatures@,
                pda_id,
            ) {
                let b = choose|b: u8|
                    #[trigger] first_valid_bump(program, sds, b) && verify_spec(
                        pda_id,
                        program,
                        sds,
                        b,
                    );
                crate::authority::lemma_derive_deterministic(program, sds, b, bump);
            }
        };
        assert(derivable(program, sds));
    }
    let res = invoke(ctx, &instruction, &proofs, &mut fwd, registry);
    let back = fwd.remove(0);
    accounts.insert(0, back);
    proof {
        assert forall|i: int| 1 <= i < accounts@.len() implies accounts@[i] == orig[i] by {
            assert(accounts@[i] == orig.remove(0)[i - 1]);
            assert(orig.remove(0)[i - 1] == orig[i]);
        }
        if res is Err {
            assert(accounts@[0] == orig[0]);
        }
    }
    res
}

} // verus!
