//! The counter program's tagged binary instruction codec.
use crate::codec::read_u32_le;
use crate::hello::error::AppError;
use crate::program_error::ProgramError;
use vstd::bytes::spec_u32_from_le_bytes;
use vstd::prelude::*;

verus! {

/// A decoded counter instruction.
#[derive(Clone, Debug, PartialEq)]
pub enum AppInstruction {
    SayHello { amount: u32 },
}

/// Strict decoding of a counter instruction payload: tag 0 followed by a
/// 4-byte little-endian amount; anything else fails with the
/// invalid-instruction error.
pub open spec fn spec_unpack(data: Seq<u8>) -> Result<AppInstruction, ProgramError> {
    let invalid = AppError::InvalidInstruction.spec_to_program_error();
    if data.len() < 1 {
        Err(invalid)
    } else if data[0] == 0 {
        if data.len() >= 5 {
            Ok(
                AppInstruction::SayHello {
                    amount: spec_u32_from_le_bytes(data.subrange(1, 5)),
                },
            )
        } else {
            Err(invalid)
        }
    } else {
        Err(invalid)
    }
}

impl AppInstruction {
    /// Decode an instruction payload, strictly.
    pub fn unpack(instruction: &[u8]) -> (r: Result<AppInstruction, ProgramError>)
        ensures
            spec_unpack(instruction@) == match r {
                Ok(ix) => Ok::<AppInstruction, ProgramError>(ix),
                Err(e) => Err(e),
            },
    {
        let n: usize = instruction.len();
        if n < 1 {
            return Err(AppError::InvalidInstruction.to_program_error());
        }
        if instruction[0] != 0 {
            return Err(AppError::InvalidInstruction.to_program_error());
        }
        if n < 5 {
            return Err(AppError::InvalidInstruction.to_program_error());
        }
        let amount = read_u32_le(instruction, 1);
        Ok(AppInstruction::SayHello { amount })
    }
}

} // verus!
