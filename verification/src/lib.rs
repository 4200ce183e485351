//! An account-based token ledger, written as a deterministic state-transition
//! engine. The host hands every invocation an ordered list of byte slots and a
//! binary instruction payload; the engine validates, decodes and applies the
//! mutations, or rejects the whole invocation with a stable error code.
pub mod pubkey;
pub mod program_error;
pub mod slot;
pub mod codec;
pub mod hello;
pub mod src20;
pub mod wsrc20;
