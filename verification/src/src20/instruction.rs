//! The token ledger's tagged binary instruction codec.
use crate::codec::read_u32_le;
use crate::codec::read_u64_le;
use crate::program_error::ProgramError;
use crate::src20::error::AppError;
use vstd::bytes::{spec_u32_from_le_bytes, spec_u64_from_le_bytes};
use vstd::prelude::*;

verus! {

broadcast use vstd::utf8::char_is_scalar;

/// A decoded ledger instruction.
#[derive(Clone, Debug, PartialEq)]
pub enum AppInstruction {
    TokenConstructor { symbol: [char; 3], total_supply: u64, decimals: u8 },
    AccountConstructor {},
    DelegationConstructor { amount: u64 },
    Transfer { amount: u64 },
    Approve { amount: u64 },
    TransferFrom { amount: u64 },
    Revoke,
}

/// The mathematical value of a decoded instruction; a symbol is its three
/// Unicode code points.
pub enum AppInstructionView {
    TokenConstructor { symbol: Seq<u32>, total_supply: u64, decimals: u8 },
    AccountConstructor {},
    DelegationConstructor { amount: u64 },
    Transfer { amount: u64 },
    Approve { amount: u64 },
    TransferFrom { amount: u64 },
    Revoke,
}

impl View for AppInstruction {
    type V = AppInstructionView;

    open spec fn view(&self) -> AppInstructionView {
        match self {
            AppInstruction::TokenConstructor { symbol, total_supply, decimals } => {
                AppInstructionView::TokenConstructor {
                    symbol: seq![symbol@[0] as u32, symbol@[1] as u32, symbol@[2] as u32],
                    total_supply: *total_supply,
                    decimals: *decimals,
                }
            },
            AppInstruction::AccountConstructor {  } => AppInstructionView::AccountConstructor {  },
            AppInstruction::DelegationConstructor { amount } => {
                AppInstructionView::DelegationConstructor { amount: *amount }
            },
            AppInstruction::Transfer { amount } => {
                AppInstructionView::Transfer { amount: *amount }
            },
            AppInstruction::Approve { amount } => AppInstructionView::Approve { amount: *amount },
            AppInstruction::TransferFrom { amount } => {
                AppInstructionView::TransferFrom { amount: *amount }
            },
            AppInstruction::Revoke => AppInstructionView::Revoke,
        }
    }
}

/// The three symbol code points at the head of a constructor payload.
pub open spec fn spec_payload_symbol(rest: Seq<u8>) -> Seq<u32> {
    seq![
        spec_u32_from_le_bytes(rest.subrange(0, 4)),
        spec_u32_from_le_bytes(rest.subrange(4, 8)),
        spec_u32_from_le_bytes(rest.subrange(8, 12)),
    ]
}

/// Whether every symbol code point in a constructor payload is a Unicode
/// scalar value.
pub open spec fn spec_payload_symbol_ok(rest: Seq<u8>) -> bool {
    forall|i: int| 0 <= i < 3 ==> vstd::utf8::is_scalar(#[trigger] spec_payload_symbol(rest)[i])
}

/// Strict decoding of an instruction payload. Byte 0 is the tag; the bytes
/// after it must hold at least the tag's fixed payload. A missing tag, an
/// unrecognized tag, a short payload or an out-of-range symbol code point all
/// fail with the invalid-instruction error; nothing partial is produced.
pub open spec fn spec_unpack(data: Seq<u8>) -> Result<AppInstructionView, ProgramError> {
    let invalid = AppError::InvalidInstruction.spec_to_program_error();
    if data.len() < 1 {
        Err(invalid)
    } else {
        let tag = data[0];
        let rest = data.subrange(1, data.len() as int);
        if tag == 0 {
            if rest.len() >= 21 && spec_payload_symbol_ok(rest) {
                Ok(
                    AppInstructionView::TokenConstructor {
                        symbol: spec_payload_symbol(rest),
                        total_supply: spec_u64_from_le_bytes(rest.subrange(12, 20)),
                        decimals: rest[20],
                    },
                )
            } else {
                Err(invalid)
            }
        } else if tag == 1 {
            Ok(AppInstructionView::AccountConstructor {  })
        } else if tag == 2 || tag == 3 || tag == 4 || tag == 5 {
            if rest.len() >= 8 {
                let amount = spec_u64_from_le_bytes(rest.subrange(0, 8));
                if tag == 2 {
                    Ok(AppInstructionView::DelegationConstructor { amount })
                } else if tag == 3 {
                    Ok(AppInstructionView::Transfer { amount })
                } else if tag == 4 {
                    Ok(AppInstructionView::Approve { amount })
                } else {
                    Ok(AppInstructionView::TransferFrom { amount })
                }
            } else {
                Err(invalid)
            }
        } else if tag == 6 {
            Ok(AppInstructionView::Revoke)
        } else {
            Err(invalid)
        }
    }
}

impl AppInstruction {
    /// Decode an instruction payload, strictly.
    pub fn unpack(instruction: &[u8]) -> (r: Result<AppInstruction, ProgramError>)
        ensures
            match r {
                Ok(ix) => spec_unpack(instruction@) == Ok::<_, ProgramError>(ix@),
                Err(e) => spec_unpack(instruction@) == Err::<AppInstructionView, _>(e),
            },
    {
        let n: usize = instruction.len();
        if n < 1 {
            return Err(AppError::InvalidInstruction.to_program_error());
        }
        let tag = instruction[0];
        let ghost rest = instruction@.subrange(1, instruction@.len() as int);
        match tag {
            0 => {
                if n < 22 {
                    return Err(AppError::InvalidInstruction.to_program_error());
                }
                let x0 = read_u32_le(instruction, 1);
                let x1 = read_u32_le(instruction, 5);
                let x2 = read_u32_le(instruction, 9);
                proof {
                    assert(rest.subrange(0, 4) =~= instruction@.subrange(1, 5));
                    assert(rest.subrange(4, 8) =~= instruction@.subrange(5, 9));
                    assert(rest.subrange(8, 12) =~= instruction@.subrange(9, 13));
                    assert(spec_payload_symbol(rest) =~= seq![x0, x1, x2]);
                }
                let c0 = char::from_u32(x0);
                let c1 = char::from_u32(x1);
                let c2 = char::from_u32(x2);
                match (c0, c1, c2) {
                    (Some(a), Some(b), Some(c)) => {
                        let mut symbol: [char; 3] = [a; 3];
                        symbol[1] = b;
                        symbol[2] = c;
                        let total_supply = read_u64_le(instruction, 13);
                        let decimals = instruction[21];
                        let ix = AppInstruction::TokenConstructor {
                            symbol,
                            total_supply,
                            decimals,
                        };
                        proof {
                            assert(spec_payload_symbol_ok(rest)) by {
                                let sv = spec_payload_symbol(rest);
                                assert(sv[0] == x0 && sv[1] == x1 && sv[2] == x2);
                                assert(forall|i: int|
                                    0 <= i < 3 ==> vstd::utf8::is_scalar(#[trigger] sv[i]));
                            }
                            assert(rest.subrange(12, 20) =~= instruction@.subrange(13, 21));
                            assert(seq![symbol@[0] as u32, symbol@[1] as u32, symbol@[2] as u32]
                                =~= spec_payload_symbol(rest));
                        }
                        Ok(ix)
                    },
                    _ => {
                        proof {
                            let sv = spec_payload_symbol(rest);
                            assert(sv[0] == x0 && sv[1] == x1 && sv[2] == x2);
                        }
                        Err(AppError::InvalidInstruction.to_program_error())
                    },
                }
            },
            1 => Ok(AppInstruction::AccountConstructor {  }),
            2 | 3 | 4 | 5 => {
                if n < 9 {
                    return Err(AppError::InvalidInstruction.to_program_error());
                }
                let amount = read_u64_le(instruction, 1);
                proof {
                    assert(rest.subrange(0, 8) =~= instruction@.subrange(1, 9));
                }
                match tag {
                    2 => Ok(AppInstruction::DelegationConstructor { amount }),
                    3 => Ok(AppInstruction::Transfer { amount }),
                    4 => Ok(AppInstruction::Approve { amount }),
                    _ => Ok(AppInstruction::TransferFrom { amount }),
                }
            },
            6 => Ok(AppInstruction::Revoke),
            _ => Err(AppError::InvalidInstruction.to_program_error()),
        }
    }
}

} // verus!
