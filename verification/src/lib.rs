//! A minimal execution model for on-ledger programs: deterministic derived
//! authorities (keyless addresses bound to a program identity), the
//! invocation protocol by which one program vouches for accounts when calling
//! another, and the doubling-counter payload carried through that protocol.

pub mod account;
pub mod authority;
pub mod codec;
pub mod counter;
pub mod errors;
pub mod identity;
pub mod invoke;
pub mod programs;
