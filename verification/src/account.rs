//! Account views and instructions: the handles a program receives for
//! ledger accounts, and the description of a sub-call it builds.

use crate::identity::Identity;
use vstd::prelude::*;

verus! {

/// The read/write handle a program receives for one ledger account.
///
/// `is_signer` is true either because the surrounding runtime verified a
/// real signature, or because the current invocation context asserted a
/// matching derived authority; the two are indistinguishable here by design.
/// The runtime commits or discards `data` after the invocation returns.
pub struct AccountView {
    /// The account's own address.
    pub identity: Identity,
    /// The program that owns the account; only that program may mutate `data`.
    pub owner: Identity,
    /// The account's mutable data buffer.
    pub data: Vec<u8>,
    /// Whether authority over this account has been proved for this invocation.
    pub is_signer: bool,
    /// Whether this invocation may write the account.
    pub is_writable: bool,
}

/// One requested account of an instruction.
pub struct AccountMetaReq {
    /// The address of the requested account.
    pub identity: Identity,
    /// Whether the callee should see the account as a signer.
    pub is_signer_request: bool,
    /// Whether the callee should see the account as writable.
    pub is_writable_request: bool,
}

/// A sub-call one program builds to invoke another; consumed exactly once.
pub struct Instruction {
    /// The program to enter.
    pub target_program: Identity,
    /// The accounts to forward, in order, with their requested flags.
    pub accounts: Vec<AccountMetaReq>,
    /// The opaque payload handed to the callee.
    pub payload: Vec<u8>,
}

} // verus!
