//! The bridge program's own failure codes.
use crate::program_error::ProgramError;
use vstd::prelude::*;

verus! {

/// Errors the bridge program can end an invocation with. Each maps to
/// a stable numeric code for host reporting.
#[derive(Clone, Debug, PartialEq, Eq)]
pub enum AppError {
    InvalidInstruction,
    InvalidOwner,
    IncorrectProgramId,
    IncorrectTokenId,
    ConstructorOnce,
    NotInitialized,
    Overflow,
    UnmatchedWrapper,
}

impl AppError {
    /// The stable numeric code of this error.
    pub open spec fn spec_code(self) -> u32 {
        match self {
            AppError::InvalidInstruction => 0,
            AppError::InvalidOwner => 1,
            AppError::IncorrectProgramId => 2,
            AppError::IncorrectTokenId => 3,
            AppError::ConstructorOnce => 4,
            AppError::NotInitialized => 5,
            AppError::Overflow => 6,
            AppError::UnmatchedWrapper => 7,
        }
    }

    /// This error as the host sees it.
    pub open spec fn spec_to_program_error(self) -> ProgramError {
        ProgramError::Custom(self.spec_code())
    }

    /// The stable numeric code of this error.
    pub fn code(&self) -> (c: u32)
        ensures
            c == self.spec_code(),
    {
        match self {
            AppError::InvalidInstruction => 0,
            AppError::InvalidOwner => 1,
            AppError::IncorrectProgramId => 2,
            AppError::IncorrectTokenId => 3,
            AppError::ConstructorOnce => 4,
            AppError::NotInitialized => 5,
            AppError::Overflow => 6,
            AppError::UnmatchedWrapper => 7,
        }
    }

    /// This error as the host sees it.
    pub fn to_program_error(&self) -> (e: ProgramError)
        ensures
            e == self.spec_to_program_error(),
    {
        ProgramError::Custom(self.code())
    }

    /// The human-readable log line of this error.
    pub open spec fn spec_message(self) -> Seq<char> {
        match self {
            AppError::InvalidInstruction => "Error: Invalid instruction"@,
            AppError::InvalidOwner => "Error: Invalid owner"@,
            AppError::IncorrectProgramId => "Error: Incorrect program id"@,
            AppError::IncorrectTokenId => "Error: Incorrect token id"@,
            AppError::ConstructorOnce => "Error: Already constructed"@,
            AppError::NotInitialized => "Error: Not yet initialized"@,
            AppError::Overflow => "Error: Operation overflowed"@,
            AppError::UnmatchedWrapper => "Error: Wrapper unmatched"@,
        }
    }

    /// The human-readable log line of this error.
    pub fn message(&self) -> (m: &'static str)
        ensures
            m@ == self.spec_message(),
    {
        match self {
            AppError::InvalidInstruction => "Error: Invalid instruction",
            AppError::InvalidOwner => "Error: Invalid owner",
            AppError::IncorrectProgramId => "Error: Incorrect program id",
            AppError::IncorrectTokenId => "Error: Incorrect token id",
            AppError::ConstructorOnce => "Error: Already constructed",
            AppError::NotInitialized => "Error: Not yet initialized",
            AppError::Overflow => "Error: Operation overflowed",
            AppError::UnmatchedWrapper => "Error: Wrapper unmatched",
        }
    }
}

} // verus!
