//! The error codes an invocation can end with, as the host sees them.
use vstd::prelude::*;

verus! {

/// The result of a failed invocation. A program-specific failure is carried
/// as `Custom` with that program's stable numeric code; the remaining
/// variants are raised by the shared slot and key machinery itself.
#[derive(Clone, Copy, Debug, PartialEq, Eq, Structural)]
pub enum ProgramError {
    /// A program-specific error, by its stable numeric code.
    Custom(u32),
    /// A slot's byte buffer does not hold a well-formed record.
    InvalidAccountData,
    /// The instruction needs more slots than the invocation supplied.
    NotEnoughAccountKeys,
    /// No derived authority key exists for the supplied seed.
    InvalidSeeds,
}

} // verus!
