//! The counter program's own failure codes.
use crate::program_error::ProgramError;
use vstd::prelude::*;

verus! {

/// Errors the counter program can end an invocation with. Each maps to a
/// stable numeric code for host reporting.
#[derive(Clone, Debug, PartialEq, Eq)]
pub enum AppError {
    InvalidInstruction,
    IncorrectProgramId,
    Overflow,
}

impl AppError {
    /// The stable numeric code of this error.
    pub open spec fn spec_code(self) -> u32 {
        match self {
            AppError::InvalidInstruction => 0,
            AppError::IncorrectProgramId => 1,
            AppError::Overflow => 2,
        }
    }

    /// This error as the host sees it.
    pub open spec fn spec_to_program_error(self) -> ProgramError {
        ProgramError::Custom(self.spec_code())
    }

    /// The stable numeric code of this error.
    pub fn code(&self) -> (c: u32)
        ensures
            c == self.spec_code(),
    {
        match self {
            AppError::InvalidInstruction => 0,
            AppError::IncorrectProgramId => 1,
            AppError::Overflow => 2,
        }
    }

    /// This error as the host sees it.
    pub fn to_program_error(&self) -> (e: ProgramError)
        ensures
            e == self.spec_to_program_error(),
    {
        ProgramError::Custom(self.code())
    }

    /// The human-readable log line of this error.
    pub open spec fn spec_message(self) -> Seq<char> {
        match self {
            AppError::InvalidInstruction => "Error: Invalid instruction"@,
            AppError::IncorrectProgramId => "Error: Incorrect program id"@,
            AppError::Overflow => "Error: Operation overflowed"@,
        }
    }

    /// The human-readable log line of this error.
    pub fn message(&self) -> (m: &'static str)
        ensures
            m@ == self.spec_message(),
    {
        match self {
            AppError::InvalidInstruction => "Error: Invalid instruction",
            AppError::IncorrectProgramId => "Error: Incorrect program id",
            AppError::Overflow => "Error: Operation overflowed",
        }
    }
}

} // verus!
