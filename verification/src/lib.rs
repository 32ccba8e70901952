//! Three minimal on-chain program handlers: a counter that doubles a
//! four-byte account state on every call, a handler that forwards the
//! incoming payload to a target program under the caller's signature,
//! and a handler that forwards it under a program-derived authority.

pub mod account;
pub mod counter;
pub mod derived_forward;
pub mod error;
pub mod instruction;
pub mod signer_forward;
pub mod state;
