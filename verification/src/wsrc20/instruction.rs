//! The bridge program's tagged binary instruction codec.
use crate::codec::read_u32_le;
use crate::codec::read_u64_le;
use crate::program_error::ProgramError;
use crate::wsrc20::error::AppError;
use vstd::bytes::{spec_u32_from_le_bytes, spec_u64_from_le_bytes};
use vstd::prelude::*;

verus! {

broadcast use vstd::utf8::char_is_scalar;

/// A decoded bridge instruction.
#[derive(Clone, Debug, PartialEq)]
pub enum AppInstruction {
    Constructor { symbol: [char; 4] },
    Wrap { amount: u64 },
    Unwrap { amount: u64 },
}

/// The mathematical value of a decoded bridge instruction; a symbol is its
/// four Unicode code points.
pub enum AppInstructionView {
    Constructor { symbol: Seq<u32> },
    Wrap { amount: u64 },
    Unwrap { amount: u64 },
}

impl View for AppInstruction {
    type V = AppInstructionView;

    open spec fn view(&self) -> AppInstructionView {
        match self {
            AppInstruction::Constructor { symbol } => {
                AppInstructionView::Constructor {
                    symbol: seq![
                        symbol@[0] as u32,
                        symbol@[1] as u32,
                        symbol@[2] as u32,
                        symbol@[3] as u32,
                    ],
                }
            },
            AppInstruction::Wrap { amount } => AppInstructionView::Wrap { amount: *amount },
            AppInstruction::Unwrap { amount } => AppInstructionView::Unwrap { amount: *amount },
        }
    }
}

/// The four symbol code points at the head of a constructor payload.
pub open spec fn spec_payload_symbol(rest: Seq<u8>) -> Seq<u32> {
    seq![
        spec_u32_from_le_bytes(rest.subrange(0, 4)),
        spec_u32_from_le_bytes(rest.subrange(4, 8)),
        spec_u32_from_le_bytes(rest.subrange(8, 12)),
        spec_u32_from_le_bytes(rest.subrange(12, 16)),
    ]
}

/// Whether every symbol code point in a constructor payload is a Unicode
/// scalar value.
pub open spec fn spec_payload_symbol_ok(rest: Seq<u8>) -> bool {
    forall|i: int| 0 <= i < 4 ==> vstd::utf8::is_scalar(#[trigger] spec_payload_symbol(rest)[i])
}

/// Strict decoding of a bridge instruction payload. Byte 0 is the tag; a
/// missing tag, an unrecognized tag, a short payload or an out-of-range
/// symbol code point all fail with the invalid-instruction error.
pub open spec fn spec_unpack(data: Seq<u8>) -> Result<AppInstructionView, ProgramError> {
    let invalid = AppError::InvalidInstruction.spec_to_program_error();
    if data.len() < 1 {
        Err(invalid)
    } else {
        let tag = data[0];
        let rest = data.subrange(1, data.len() as int);
        if tag == 0 {
            if rest.len() >= 16 && spec_payload_symbol_ok(rest) {
                Ok(AppInstructionView::Constructor { symbol: spec_payload_symbol(rest) })
            } else {
                Err(invalid)
            }
        } else if tag == 1 || tag == 2 {
            if rest.len() >= 8 {
                let amount = spec_u64_from_le_bytes(rest.subrange(0, 8));
                if tag == 1 {
                    Ok(AppInstructionView::Wrap { amount })
                } else {
                    Ok(AppInstructionView::Unwrap { amount })
                }
            } else {
                Err(invalid)
            }
        } else {
            Err(invalid)
        }
    }
}

impl AppInstruction {
    /// Decode an instruction payload, strictly.
    pub fn unpack(instruction: &[u8]) -> (r: Result<AppInstruction, ProgramError>)
        ensures
            match r {
                Ok(ix) => spec_unpack(instruction@) == Ok::<_, ProgramError>(ix@),
                Err(e) => spec_unpack(instruction@) == Err::<AppInstructionView, _>(e),
            },
    {
        let n: usize = instruction.len();
        if n < 1 {
            return Err(AppError::InvalidInstruction.to_program_error());
        }
        let tag = instruction[0];
        let ghost rest = instruction@.subrange(1, instruction@.len() as int);
        match tag {
            0 => {
                if n < 17 {
                    return Err(AppError::InvalidInstruction.to_program_error());
                }
                let x0 = read_u32_le(instruction, 1);
                let x1 = read_u32_le(instruction, 5);
                let x2 = read_u32_le(instruction, 9);
                let x3 = read_u32_le(instruction, 13);
                proof {
                    assert(rest.subrange(0, 4) =~= instruction@.subrange(1, 5));
                    assert(rest.subrange(4, 8) =~= instruction@.subrange(5, 9));
                    assert(rest.subrange(8, 12) =~= instruction@.subrange(9, 13));
                    assert(rest.subrange(12, 16) =~= instruction@.subrange(13, 17));
                    assert(spec_payload_symbol(rest) =~= seq![x0, x1, x2, x3]);
                }
                let c0 = char::from_u32(x0);
                let c1 = char::from_u32(x1);
                let c2 = char::from_u32(x2);
                let c3 = char::from_u32(x3);
                match (c0, c1, c2, c3) {
                    (Some(a), Some(b), Some(c), Some(d)) => {
                        let mut symbol: [char; 4] = [a; 4];
                        symbol[1] = b;
                        symbol[2] = c;
                        symbol[3] = d;
                        let ix = AppInstruction::Constructor { symbol };
                        proof {
                            assert(spec_payload_symbol_ok(rest)) by {
                                let sv = spec_payload_symbol(rest);
                                assert(sv[0] == x0 && sv[1] == x1 && sv[2] == x2 && sv[3] == x3);
                                assert(forall|i: int|
                                    0 <= i < 4 ==> vstd::utf8::is_scalar(#[trigger] sv[i]));
                            }
                            assert(seq![
                                symbol@[0] as u32,
                                symbol@[1] as u32,
                                symbol@[2] as u32,
                                symbol@[3] as u32,
                            ] =~= spec_payload_symbol(rest));
                        }
                        Ok(ix)
                    },
                    _ => {
                        proof {
                            let sv = spec_payload_symbol(rest);
                            assert(sv[0] == x0 && sv[1] == x1 && sv[2] == x2 && sv[3] == x3);
                        }
                        Err(AppError::InvalidInstruction.to_program_error())
                    },
                }
            },
            1 | 2 => {
                if n < 9 {
                    return Err(AppError::InvalidInstruction.to_program_error());
                }
                let amount = read_u64_le(instruction, 1);
                proof {
                    assert(rest.subrange(0, 8) =~= instruction@.subrange(1, 9));
                }
                if tag == 1 {
                    Ok(AppInstruction::Wrap { amount })
                } else {
                    Ok(AppInstruction::Unwrap { amount })
                }
            },
            _ => Err(AppError::InvalidInstruction.to_program_error()),
        }
    }
}

} // verus!
