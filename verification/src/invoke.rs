//! The invocation context and the invoke protocol: which authorities the
//! executing program may assert, and how a sub-call is validated,
//! dispatched, and returned.

use crate::account::{AccountMetaReq, AccountView, Instruction};
use crate::authority::{derived_address, on_curve_of, verify, verify_spec, SeedProof};
use crate::counter::{counter_entrypoint, counter_next_data};
use crate::errors::{CoreError, ProgramError};
use crate::identity::{bytes_eq, Identity};
use vstd::prelude::*;

verus! {

/// The deepest invocation frame the protocol admits; a sub-call that would
/// create a deeper frame fails with `InvocationDepthExceeded`.
pub const MAX_DEPTH: u32 = 4;

/// The authorities of the currently executing program: the signatures it
/// received and may re-forward, and its own identity, under which alone it
/// can prove derived authorities. Scoped to one entrypoint execution.
pub struct InvocationContext {
    /// The program now executing.
    pub executing_program: Identity,
    /// Accounts whose signer status was established upstream and forwarded.
    pub held_signatures: Vec<Identity>,
    /// The 1-based depth of this frame in the invocation chain.
    pub depth: u32,
}

/// The payload logic a registered program runs.
#[derive(Clone, Copy, Debug, PartialEq, Eq, Structural)]
pub enum ProgramKind {
    /// The doubling-counter program.
    Counter,
}

/// One invokable program: its identity and its logic.
pub struct RegistryEntry {
    /// The program's address.
    pub identity: Identity,
    /// The logic the runtime runs when this program is entered.
    pub kind: ProgramKind,
}

/// The closed dispatch table of invokable programs, resolved by the runtime.
pub struct Registry {
    /// The registered programs.
    pub entries: Vec<RegistryEntry>,
}

/// Whether a signature for `id` is held (was verified upstream).
pub open spec fn sig_held(held: Seq<Identity>, id: Seq<u8>) -> bool {
    exists|j: int| 0 <= j < held.len() && (#[trigger] held[j])@ == id
}

/// Whether some supplied seed proof grants authority over `id` under
/// `program`'s identity: the proof names `id` and its `(seeds, bump)`
/// derivation under `program` passes `verify`.
pub open spec fn proof_grants(proofs: Seq<SeedProof>, program: Seq<u8>, id: Seq<u8>) -> bool {
    exists|j: int|
        0 <= j < proofs.len() && (#[trigger] proofs[j]).account@ == id && verify_spec(
            id,
            program,
            proofs[j].seeds.deep_view(),
            proofs[j].bump,
        )
}

/// Whether the executing program may assert signer authority over `id`:
/// either a real signature is held, or a seed proof bound to the executing
/// program's own identity checks out.
pub open spec fn authority_granted(
    ctx: InvocationContext,
    proofs: Seq<SeedProof>,
    id: Seq<u8>,
) -> bool {
    sig_held(ctx.held_signatures@, id) || proof_grants(proofs, ctx.executing_program@, id)
}

/// Whether every account requested as a signer is granted authority.
pub open spec fn all_signers_granted(
    ctx: InvocationContext,
    proofs: Seq<SeedProof>,
    metas: Seq<AccountMetaReq>,
) -> bool {
    forall|i: int|
        0 <= i < metas.len() && (#[trigger] metas[i]).is_signer_request ==> authority_granted(
            ctx,
            proofs,
            metas[i].identity@,
        )
}

/// Whether a program with address `id` is registered.
pub open spec fn program_registered(entries: Seq<RegistryEntry>, id: Seq<u8>) -> bool {
    exists|j: int| 0 <= j < entries.len() && (#[trigger] entries[j]).identity@ == id
}

/// The typed failure the counter program returns for the given forwarded
/// accounts, or `None` when it succeeds. The runtime's ownership check
/// comes first: the callee may write only accounts it owns.
pub open spec fn counter_call_error(
    metas: Seq<AccountMetaReq>,
    views: Seq<AccountView>,
    target: Seq<u8>,
) -> Option<ProgramError>
    recommends
        metas.len() == views.len(),
{
    if views.len() == 0 {
        Some(ProgramError::NotEnoughAccountKeys)
    } else if views[0].owner@ != target {
        Some(ProgramError::InvalidAccountOwner)
    } else if !metas[0].is_signer_request {
        Some(ProgramError::MissingRequiredSignature)
    } else if views[0].data@.len() != 4 {
        Some(ProgramError::InvalidAccountData)
    } else {
        None
    }
}

fn holds_signature(held: &Vec<Identity>, id: &Identity) -> (r: bool)
    ensures
        r == sig_held(held@, id@),
{
    let n = held.len();
    let mut i: usize = 0;
    while i < n
        invariant
            n == held@.len(),
            i <= n,
            forall|j: int| 0 <= j < i ==> (#[trigger] held@[j])@ != id@,
        decreases n - i,
    {
        if bytes_eq(&held[i], id) {
            return true;
        }
        i += 1;
    }
    false
}

fn proof_found(proofs: &Vec<SeedProof>, program: &Identity, id: &Identity) -> (r: bool)
    ensures
        r == proof_grants(proofs@, program@, id@),
{
    let n = proofs.len();
    let mut i: usize = 0;
    while i < n
        invariant
            n == proofs@.len(),
            i <= n,
            forall|j: int|
                0 <= j < i ==> !((#[trigger] proofs@[j]).account@ == id@ && verify_spec(
                    id@,
                    program@,
                    proofs@[j].seeds.deep_view(),
                    proofs@[j].bump,
                )),
        decreases n - i,
    {
        let p = &proofs[i];
        if bytes_eq(&p.account, id) {
            if verify(id, program, &p.seeds, p.bump) {
                return true;
            }
        }
        i += 1;
    }
    false
}

fn account_authorized(ctx: &InvocationContext, proofs: &Vec<SeedProof>, id: &Identity) -> (r: bool)
    ensures
        r == authority_granted(*ctx, proofs@, id@),
{
    if holds_signature(&ctx.held_signatures, id) {
        return true;
    }
    proof_found(proofs, &ctx.executing_program, id)
}

fn validate_authorities(
    ctx: &InvocationContext,
    instruction: &Instruction,
    proofs: &Vec<SeedProof>,
) -> (r: bool)
    ensures
        r == all_signers_granted(*ctx, proofs@, instruction.accounts@),
{
    let n = instruction.accounts.len();
    let mut i: usize = 0;
    while i < n
        invariant
            n == instruction.accounts@.len(),
            i <= n,
            forall|j: int|
                0 <= j < i && (#[trigger] instruction.accounts@[j]).is_signer_request
                    ==> authority_granted(*ctx, proofs@, instruction.accounts@[j].identity@),
        decreases n - i,
    {
        let meta = &instruction.accounts[i];
        if meta.is_signer_request {
            if !account_authorized(ctx, proofs, &meta.identity) {
                return false;
            }
        }
        i += 1;
    }
    true
}

fn registry_lookup(registry: &Registry, id: &Identity) -> (r: Option<ProgramKind>)
    ensures
        r.is_some() == program_registered(registry.entries@, id@),
        r.is_some() ==> r == Some(ProgramKind::Counter),
{
    let n = registry.entries.len();
    let mut i: usize = 0;
    while i < n
        invariant
            n == registry.entries@.len(),
            i <= n,
            forall|j: int| 0 <= j < i ==> (#[trigger] registry.entries@[j]).identity@ != id@,
        decreases n - i,
    {
        if bytes_eq(&registry.entries[i].identity, id) {
            let k = registry.entries[i].kind;
            match k {
                ProgramKind::Counter => {
                    return Some(ProgramKind::Counter);
                },
            }
        }
        i += 1;
    }
    None
}

/// Forwards a sub-instruction to another program.
///
/// The pending sub-call runs `Built -> Validated -> Dispatched -> Returned`:
/// every account requested as a signer must be justified by a held
/// signature or a seed proof bound to the executing program's own identity
/// (else `MissingRequiredAuthority`, and nothing is dispatched); the chain
/// may not grow beyond `MAX_DEPTH` frames (else `InvocationDepthExceeded`);
/// the target must be registered; then the runtime enters the callee with
/// the forwarded accounts carrying the validated signer flags. The callee's
/// result, success or typed failure, is returned to the caller; mutations
/// the callee made before a failure are not rolled back here — that is the
/// surrounding transaction boundary's concern.
///
/// The forwarded `accounts` correspond one-to-one, in order, to the
/// instruction's account list; the runtime's account loading provides this.
pub fn invoke(
    ctx: &InvocationContext,
    instruction: &Instruction,
    proofs: &Vec<SeedProof>,
    accounts: &mut Vec<AccountView>,
    registry: &Registry,
) -> (r: Result<(), CoreError>)
    requires
        old(accounts)@.len() == instruction.accounts@.len(),
        forall|i: int|
            0 <= i < old(accounts)@.len() ==> (#[trigger] old(accounts)@[i]).identity@
                == instruction.accounts@[i].identity@,
    ensures
        final(accounts)@.len() == old(accounts)@.len(),
        match r {
            Err(CoreError::MissingRequiredAuthority) => {
                &&& !all_signers_granted(*ctx, proofs@, instruction.accounts@)
                &&& final(accounts)@ == old(accounts)@
            },
            Err(CoreError::InvocationDepthExceeded) => {
                &&& all_signers_granted(*ctx, proofs@, instruction.accounts@)
                &&& ctx.depth + 1 > MAX_DEPTH
                &&& final(accounts)@ == old(accounts)@
            },
            Err(CoreError::UnknownProgram) => {
                &&& all_signers_granted(*ctx, proofs@, instruction.accounts@)
                &&& ctx.depth + 1 <= MAX_DEPTH
                &&& !program_registered(registry.entries@, instruction.target_program@)
                &&& final(accounts)@ == old(accounts)@
            },
            Err(CoreError::Callee(e)) => {
                &&& all_signers_granted(*ctx, proofs@, instruction.accounts@)
                &&& ctx.depth + 1 <= MAX_DEPTH
                &&& program_registered(registry.entries@, instruction.target_program@)
                &&& counter_call_error(
                    instruction.accounts@,
                    old(accounts)@,
                    instruction.target_program@,
                ) == Some(e)
                &&& final(accounts)@ == old(accounts)@
            },
            Err(CoreError::ExhaustedBumpSpace) => false,
            Ok(()) => {
                &&& all_signers_granted(*ctx, proofs@, instruction.accounts@)
                &&& ctx.depth + 1 <= MAX_DEPTH
                &&& program_registered(registry.entries@, instruction.target_program@)
                &&& counter_call_error(
                    instruction.accounts@,
                    old(accounts)@,
                    instruction.target_program@,
                ) is None
                &&& forall|i: int|
                    1 <= i < final(accounts)@.len() ==> final(accounts)@[i] == old(accounts)@[i]
                &&& final(accounts)@[0].identity == old(accounts)@[0].identity
                &&& final(accounts)@[0].owner == old(accounts)@[0].owner
                &&& final(accounts)@[0].is_signer == old(accounts)@[0].is_signer
                &&& final(accounts)@[0].is_writable == old(accounts)@[0].is_writable
                &&& final(accounts)@[0].data@ == counter_next_data(old(accounts)@[0].data@)
            },
        },
{
    // Validated
    if !validate_authorities(ctx, instruction, proofs) {
        return Err(CoreError::MissingRequiredAuthority);
    }
    // Dispatched: the chain may not grow beyond MAX_DEPTH frames
    if ctx.depth >= MAX_DEPTH {
        return Err(CoreError::InvocationDepthExceeded);
    }
    match registry_lookup(registry, &instruction.target_program) {
        None => {
            return Err(CoreError::UnknownProgram);
        },
        Some(ProgramKind::Counter) => {},
    }
    if accounts.len() == 0 {
        return Err(CoreError::Callee(ProgramError::NotEnoughAccountKeys));
    }
    let ghost orig = accounts@;
    let mut a0 = accounts.remove(0);
    if !bytes_eq(&a0.owner, &instruction.target_program) {
        accounts.insert(0, a0);
        proof {
            assert(accounts@ =~= orig);
        }
        return Err(CoreError::Callee(ProgramError::InvalidAccountOwner));
    }
    // The callee sees the validated requested flags; the caller's own view
    // of the account keeps its flags when control returns.
    let saved_signer = a0.is_signer;
    let saved_writable = a0.is_writable;
    a0.is_signer = instruction.accounts[0].is_signer_request;
    a0.is_writable = instruction.accounts[0].is_writable_request;
    let res = counter_entrypoint(&instruction.target_program, &mut a0, &instruction.payload);
    a0.is_signer = saved_signer;
    a0.is_writable = saved_writable;
    match res {
        Ok(()) => {
            accounts.insert(0, a0);
            proof {
                assert forall|i: int| 1 <= i < accounts@.len() implies accounts@[i] == orig[i] by {
                    assert(accounts@[i] == orig.remove(0)[i - 1]);
                    assert(orig.remove(0)[i - 1] == orig[i]);
                }
            }
            Ok(())
        },
        Err(e) => {
            accounts.insert(0, a0);
            proof {
                assert(a0 == orig[0]);
                assert(accounts@ =~= orig);
            }
            Err(CoreError::Callee(e))
        },
    }
}

/// Confused-deputy resistance: when a seed proof grants signer authority
/// over `id`, then `id` is a derived address computed under the executing
/// program's own identity, and it is off-curve. A proof built from another
/// program's derivation — even with correct seeds and bump for that other
/// program — grants nothing, because the owner identity is bound into the
/// hash that `verify` recomputes.
pub proof fn lemma_proof_grants_binds_executing_program(
    proofs: Seq<SeedProof>,
    program: Seq<u8>,
    id: Seq<u8>,
)
    requires
        proof_grants(proofs, program, id),
    ensures
        exists|j: int|
            0 <= j < proofs.len() && id == derived_address(
                program,
                (#[trigger] proofs[j]).seeds.deep_view(),
                proofs[j].bump,
            ) && !on_curve_of(id),
{
    let j = choose|j: int|
        0 <= j < proofs.len() && (#[trigger] proofs[j]).account@ == id && verify_spec(
            id,
            program,
            proofs[j].seeds.deep_view(),
            proofs[j].bump,
        );
    assert(id == derived_address(program, proofs[j].seeds.deep_view(), proofs[j].bump));
}

} // verus!
