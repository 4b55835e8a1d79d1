use derived_authority::account::{AccountMetaReq, AccountView, Instruction};
use derived_authority::authority::SeedProof;
use derived_authority::errors::{CoreError, ProgramError};
use derived_authority::invoke::{
    invoke, InvocationContext, ProgramKind, Registry, RegistryEntry, MAX_DEPTH,
};
use derived_authority::programs::{forward_entrypoint, process_instruction};

fn id_of(tag: u8) -> Vec<u8> {
    vec![tag; 32]
}

fn view(identity: Vec<u8>, owner: Vec<u8>, data: Vec<u8>) -> AccountView {
    AccountView { identity, owner, data, is_signer: false, is_writable: true }
}

fn counter_registry(program: Vec<u8>) -> Registry {
    Registry {
        entries: vec![RegistryEntry { identity: program, kind: ProgramKind::Counter }],
    }
}

fn signer_meta(identity: Vec<u8>) -> AccountMetaReq {
    AccountMetaReq { identity, is_signer_request: true, is_writable_request: true }
}

fn no_proofs() -> Vec<SeedProof> {
    Vec::new()
}

#[test]
fn invoke_succeeds_at_depth_boundary() {
    // A chain of MAX_DEPTH frames is allowed: the deepest caller sits at
    // depth MAX_DEPTH - 1.
    let x = id_of(2);
    let a_id = id_of(5);
    let instruction = Instruction {
        target_program: x.clone(),
        accounts: vec![signer_meta(a_id.clone())],
        payload: vec![],
    };
    let mut accounts = vec![view(a_id.clone(), x.clone(), vec![0, 0, 0, 0])];
    let ctx = InvocationContext {
        executing_program: id_of(1),
        held_signatures: vec![a_id.clone()],
        depth: MAX_DEPTH - 1,
    };
    let r = invoke(&ctx, &instruction, &no_proofs(), &mut accounts, &counter_registry(x));
    assert_eq!(r, Ok(()));
    assert_eq!(accounts[0].data, vec![1, 0, 0, 0]);
}

#[test]
fn invoke_fails_past_depth_boundary() {
    // One frame more than MAX_DEPTH is refused, authorities notwithstanding.
    let x = id_of(2);
    let a_id = id_of(5);
    let instruction = Instruction {
        target_program: x.clone(),
        accounts: vec![signer_meta(a_id.clone())],
        payload: vec![],
    };
    let mut accounts = vec![view(a_id.clone(), x.clone(), vec![0, 0, 0, 0])];
    let ctx = InvocationContext {
        executing_program: id_of(1),
        held_signatures: vec![a_id.clone()],
        depth: MAX_DEPTH,
    };
    let r = invoke(&ctx, &instruction, &no_proofs(), &mut accounts, &counter_registry(x));
    assert_eq!(r, Err(CoreError::InvocationDepthExceeded));
    assert_eq!(accounts[0].data, vec![0, 0, 0, 0]);
}

#[test]
fn invoke_rejects_unjustified_signer() {
    let x = id_of(2);
    let a_id = id_of(5);
    let instruction = Instruction {
        target_program: x.clone(),
        accounts: vec![signer_meta(a_id.clone())],
        payload: vec![],
    };
    let mut accounts = vec![view(a_id.clone(), x.clone(), vec![0, 0, 0, 0])];
    let ctx = InvocationContext {
        executing_program: id_of(1),
        held_signatures: vec![],
        depth: 1,
    };
    let r = invoke(&ctx, &instruction, &no_proofs(), &mut accounts, &counter_registry(x));
    assert_eq!(r, Err(CoreError::MissingRequiredAuthority));
    assert_eq!(accounts[0].data, vec![0, 0, 0, 0]);
}

#[test]
fn invoke_rejects_unknown_program() {
    let x = id_of(2);
    let a_id = id_of(5);
    let instruction = Instruction {
        target_program: x.clone(),
        accounts: vec![signer_meta(a_id.clone())],
        payload: vec![],
    };
    let mut accounts = vec![view(a_id.clone(), x.clone(), vec![0, 0, 0, 0])];
    let ctx = InvocationContext {
        executing_program: id_of(1),
        held_signatures: vec![a_id.clone()],
        depth: 1,
    };
    let empty_registry = Registry { entries: vec![] };
    let r = invoke(&ctx, &instruction, &no_proofs(), &mut accounts, &empty_registry);
    assert_eq!(r, Err(CoreError::UnknownProgram));
}

#[test]
fn invoke_rejects_foreign_owner() {
    let x = id_of(2);
    let a_id = id_of(5);
    let instruction = Instruction {
        target_program: x.clone(),
        accounts: vec![signer_meta(a_id.clone())],
        payload: vec![],
    };
    let mut accounts = vec![view(a_id.clone(), id_of(8), vec![0, 0, 0, 0])];
    let ctx = InvocationContext {
        executing_program: id_of(1),
        held_signatures: vec![a_id.clone()],
        depth: 1,
    };
    let r = invoke(&ctx, &instruction, &no_proofs(), &mut accounts, &counter_registry(x));
    assert_eq!(r, Err(CoreError::Callee(ProgramError::InvalidAccountOwner)));
    assert_eq!(accounts[0].data, vec![0, 0, 0, 0]);
}

#[test]
fn invoke_reports_missing_accounts() {
    let x = id_of(2);
    let instruction = Instruction {
        target_program: x.clone(),
        accounts: vec![],
        payload: vec![],
    };
    let mut accounts: Vec<AccountView> = vec![];
    let ctx = InvocationContext {
        executing_program: id_of(1),
        held_signatures: vec![],
        depth: 1,
    };
    let r = invoke(&ctx, &instruction, &no_proofs(), &mut accounts, &counter_registry(x));
    assert_eq!(r, Err(CoreError::Callee(ProgramError::NotEnoughAccountKeys)));
}

#[test]
fn forward_with_held_signature() {
    let y = id_of(1);
    let x = id_of(2);
    let a_id = id_of(5);
    let mut accounts = vec![
        view(a_id.clone(), x.clone(), vec![2, 0, 0, 0]),
        view(x.clone(), id_of(9), vec![]),
    ];
    let ctx = InvocationContext {
        executing_program: y,
        held_signatures: vec![a_id.clone()],
        depth: 1,
    };
    let r = forward_entrypoint(&ctx, &mut accounts, &vec![], &counter_registry(x));
    assert_eq!(r, Ok(()));
    assert_eq!(accounts[0].data, vec![4, 0, 0, 0]);
}

#[test]
fn forward_without_signature_is_rejected() {
    let y = id_of(1);
    let x = id_of(2);
    let a_id = id_of(5);
    let mut accounts = vec![
        view(a_id.clone(), x.clone(), vec![2, 0, 0, 0]),
        view(x.clone(), id_of(9), vec![]),
    ];
    let ctx = InvocationContext {
        executing_program: y,
        held_signatures: vec![],
        depth: 1,
    };
    let r = forward_entrypoint(&ctx, &mut accounts, &vec![], &counter_registry(x));
    assert_eq!(r, Err(CoreError::MissingRequiredAuthority));
    assert_eq!(accounts[0].data, vec![2, 0, 0, 0]);
}

#[test]
fn end_to_end_derived_authority() {
    // Account A is owned by program X and holds count 0; program Y invokes
    // X passing A as a signer via a derived authority it proves itself.
    let y = id_of(1);
    let x = id_of(2);
    let user = id_of(3);
    let seeds = vec![b"data_account".to_vec(), user.clone()];
    let (pda, _bump) = derived_authority::authority::derive(&y, &seeds).unwrap();
    let mut accounts = vec![
        view(pda, x.clone(), vec![0, 0, 0, 0]),
        view(user, id_of(9), vec![]),
        view(x.clone(), id_of(9), vec![]),
    ];
    let ctx = InvocationContext {
        executing_program: y,
        held_signatures: vec![],
        depth: 1,
    };
    let r = process_instruction(&ctx, &mut accounts, &vec![], &counter_registry(x));
    assert_eq!(r, Ok(()));
    assert_eq!(accounts[0].data, vec![1, 0, 0, 0]);
}

#[test]
fn end_to_end_foreign_seeds_are_rejected() {
    // The same scenario, but the account's address was derived under a
    // different program's identity: Y cannot vouch for it, even though the
    // seed values themselves are the ones it uses.
    let y = id_of(1);
    let x = id_of(2);
    let z = id_of(4);
    let user = id_of(3);
    let seeds = vec![b"data_account".to_vec(), user.clone()];
    let (foreign_pda, _bump) = derived_authority::authority::derive(&z, &seeds).unwrap();
    let mut accounts = vec![
        view(foreign_pda, x.clone(), vec![0, 0, 0, 0]),
        view(user, id_of(9), vec![]),
        view(x.clone(), id_of(9), vec![]),
    ];
    let ctx = InvocationContext {
        executing_program: y,
        held_signatures: vec![],
        depth: 1,
    };
    let r = process_instruction(&ctx, &mut accounts, &vec![], &counter_registry(x));
    assert_eq!(r, Err(CoreError::MissingRequiredAuthority));
    assert_eq!(accounts[0].data, vec![0, 0, 0, 0]);
}
