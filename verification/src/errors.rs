//! The failure taxonomy of the authority and invocation subsystem.

use vstd::prelude::*;

verus! {

/// A typed failure produced while executing a program's entrypoint.
#[derive(Clone, Copy, Debug, PartialEq, Eq, Structural)]
pub enum ProgramError {
    /// The entrypoint needed more accounts than the instruction supplied.
    NotEnoughAccountKeys,
    /// The account to be written is not owned by the executing program.
    InvalidAccountOwner,
    /// A required signer account did not carry signer status.
    MissingRequiredSignature,
    /// The account's data buffer does not hold a well-formed payload.
    InvalidAccountData,
}

/// A failure of the invocation-authorization core itself.
///
/// Every variant is fatal to the current invocation chain: none is retriable
/// by this subsystem, since its inputs are deterministic.
#[derive(Clone, Copy, Debug, PartialEq, Eq, Structural)]
pub enum CoreError {
    /// No bump value in `0..=255` produced an off-curve derived address.
    ExhaustedBumpSpace,
    /// A requested signer account could not be justified by a held signature
    /// or by a derived-authority proof bound to the executing program.
    MissingRequiredAuthority,
    /// The invocation chain would exceed the fixed maximum depth.
    InvocationDepthExceeded,
    /// The target program identity is not present in the dispatch registry.
    UnknownProgram,
    /// The callee's own typed failure, propagated verbatim.
    Callee(ProgramError),
}

} // verus!
