//! The payload state machine carried through the invocation protocol: a
//! doubling counter held in an account's data buffer.

use crate::account::AccountView;
use crate::codec::{decode_count, encode_count, le_bytes_of, le_value_of};
use crate::errors::ProgramError;
use crate::identity::Identity;
use vstd::prelude::*;

verus! {

/// The counter payload state.
#[derive(Clone, Copy, Debug, PartialEq, Eq, Structural)]
pub struct CounterState {
    /// The current counter value.
    pub count: u32,
}

/// The counter transition: zero becomes one, anything else doubles.
/// Doubling wraps on overflow by policy: the value space is a fixed-width
/// counter and silent truncation is accepted, documented behaviour.
pub open spec fn apply_spec(count: u32) -> u32 {
    if count == 0 {
        1u32
    } else {
        ((count as nat * 2) % 0x1_0000_0000) as u32
    }
}

/// Applies one counter transition.
pub fn apply(state: CounterState) -> (r: CounterState)
    ensures
        r.count == apply_spec(state.count),
{
    if state.count == 0 {
        CounterState { count: 1 }
    } else {
        CounterState { count: state.count.wrapping_mul(2) }
    }
}

/// The data buffer the counter program leaves behind when it accepts a
/// buffer holding `d`.
pub open spec fn counter_next_data(d: Seq<u8>) -> Seq<u8> {
    le_bytes_of(apply_spec(le_value_of(d)))
}

/// The counter program's entrypoint: requires the account to carry signer
/// status, reads the counter from the account's data, applies one
/// transition, and writes the result back.
///
/// That the account is owned by the executing program is enforced by the
/// runtime before dispatch and assumed here.
pub fn counter_entrypoint(
    program_id: &Identity,
    account: &mut AccountView,
    _payload: &Vec<u8>,
) -> (r: Result<(), ProgramError>)
    requires
        old(account).owner@ == program_id@,
    ensures
        final(account).identity == old(account).identity,
        final(account).owner == old(account).owner,
        final(account).is_signer == old(account).is_signer,
        final(account).is_writable == old(account).is_writable,
        match r {
            Ok(()) => {
                &&& old(account).is_signer
                &&& old(account).data@.len() == 4
                &&& final(account).data@ == counter_next_data(old(account).data@)
                &&& le_value_of(final(account).data@) == apply_spec(le_value_of(old(account).data@))
            },
            Err(ProgramError::MissingRequiredSignature) => {
                &&& !old(account).is_signer
                &&& final(account).data == old(account).data
            },
            Err(ProgramError::InvalidAccountData) => {
                &&& old(account).is_signer
                &&& old(account).data@.len() != 4
                &&& final(account).data == old(account).data
            },
            Err(_) => false,
        },
{
    if !account.is_signer {
        return Err(ProgramError::MissingRequiredSignature);
    }
    if account.data.len() != 4 {
        return Err(ProgramError::InvalidAccountData);
    }
    let count = decode_count(&account.data);
    let next = apply(CounterState { count });
    account.data = encode_count(next.count);
    proof {
        crate::codec::lemma_codec_round_trip(next.count);
    }
    Ok(())
}

} // verus!
