//! Instruction builders for the two bridged ledgers, and the sub-invocation
//! values the bridge hands back to the host glue for dispatch.
use crate::codec::write_u64_le;
use crate::program_error::ProgramError;
use crate::pubkey::Pubkey;
use vstd::bytes::{spec_u32_to_le_bytes, spec_u64_to_le_bytes};
use vstd::prelude::*;

verus! {

/// One slot reference inside a built instruction.
#[derive(Clone, Debug, PartialEq)]
pub struct AccountMeta {
    pub pubkey: Pubkey,
    pub is_signer: bool,
    pub is_writable: bool,
}

/// The mathematical value of a slot reference.
#[verifier::ext_equal]
pub struct AccountMetaView {
    pub pubkey: Seq<u8>,
    pub is_signer: bool,
    pub is_writable: bool,
}

impl View for AccountMeta {
    type V = AccountMetaView;

    open spec fn view(&self) -> AccountMetaView {
        AccountMetaView {
            pubkey: self.pubkey@,
            is_signer: self.is_signer,
            is_writable: self.is_writable,
        }
    }
}

impl AccountMeta {
    /// A writable slot reference.
    pub fn new(pubkey: Pubkey, is_signer: bool) -> (m: AccountMeta)
        ensures
            m@ == (AccountMetaView { pubkey: pubkey@, is_signer, is_writable: true }),
    {
        AccountMeta { pubkey, is_signer, is_writable: true }
    }

    /// A read-only slot reference.
    pub fn new_readonly(pubkey: Pubkey, is_signer: bool) -> (m: AccountMeta)
        ensures
            m@ == (AccountMetaView { pubkey: pubkey@, is_signer, is_writable: false }),
    {
        AccountMeta { pubkey, is_signer, is_writable: false }
    }
}

/// A built instruction for some ledger program: the program to invoke, the
/// slots to hand it, and its binary payload.
#[derive(Clone, Debug, PartialEq)]
pub struct Instruction {
    pub program_id: Pubkey,
    pub accounts: Vec<AccountMeta>,
    pub data: Vec<u8>,
}

/// The mathematical value of a built instruction.
#[verifier::ext_equal]
pub struct InstructionView {
    pub program_id: Seq<u8>,
    pub accounts: Seq<AccountMetaView>,
    pub data: Seq<u8>,
}

impl View for Instruction {
    type V = InstructionView;

    open spec fn view(&self) -> InstructionView {
        InstructionView {
            program_id: self.program_id@,
            accounts: self.accounts@.map_values(|m: AccountMeta| m@),
            data: self.data@,
        }
    }
}

/// One sub-invocation the bridge asks the host glue to dispatch: the built
/// instruction, and the derived-authority seed to sign it with, where the
/// bridge itself must authorize the call.
#[derive(Clone, Debug, PartialEq)]
pub struct SubInvocation {
    pub instruction: Instruction,
    pub signer_seed: Option<Pubkey>,
}

/// The mathematical value of a sub-invocation.
#[verifier::ext_equal]
pub struct SubInvocationView {
    pub instruction: InstructionView,
    pub signer_seed: Option<Seq<u8>>,
}

impl View for SubInvocation {
    type V = SubInvocationView;

    open spec fn view(&self) -> SubInvocationView {
        SubInvocationView {
            instruction: self.instruction@,
            signer_seed: match self.signer_seed {
                Some(k) => Some(k@),
                None => None,
            },
        }
    }
}

/// The mathematical values of a list of sub-invocations.
pub open spec fn sub_views(v: Seq<SubInvocation>) -> Seq<SubInvocationView> {
    v.map_values(|x: SubInvocation| x@)
}

/// The account-initialization instruction of the foreign token ledger:
/// its tag 1 with no payload, over the target, its mint, the owner and the
/// rent sysvar.
pub open spec fn spec_spl_initialize_account_ix(
    program_id: Seq<u8>,
    owner: Seq<u8>,
    token_acc: Seq<u8>,
    target_acc: Seq<u8>,
    sysvar_rent_acc: Seq<u8>,
) -> InstructionView {
    InstructionView {
        program_id,
        accounts: seq![
            AccountMetaView { pubkey: target_acc, is_signer: false, is_writable: true },
            AccountMetaView { pubkey: token_acc, is_signer: false, is_writable: false },
            AccountMetaView { pubkey: owner, is_signer: false, is_writable: false },
            AccountMetaView { pubkey: sysvar_rent_acc, is_signer: false, is_writable: false },
        ],
        data: seq![1u8],
    }
}

/// The transfer instruction of the foreign token ledger: its tag 3 with the
/// little-endian amount, over source, destination and the signing owner.
pub open spec fn spec_spl_transfer_ix(
    program_id: Seq<u8>,
    owner: Seq<u8>,
    src_acc: Seq<u8>,
    dst_acc: Seq<u8>,
    amount: u64,
) -> InstructionView {
    InstructionView {
        program_id,
        accounts: seq![
            AccountMetaView { pubkey: src_acc, is_signer: false, is_writable: true },
            AccountMetaView { pubkey: dst_acc, is_signer: false, is_writable: true },
            AccountMetaView { pubkey: owner, is_signer: true, is_writable: false },
        ],
        data: seq![3u8] + spec_u64_to_le_bytes(amount),
    }
}

/// Builders for the foreign token ledger's own instruction format.
pub struct ISPL {}

impl ISPL {
    /// Build the foreign ledger's account-initialization instruction.
    pub fn initialize_account(
        program_id: Pubkey,
        owner: Pubkey,
        token_acc: Pubkey,
        target_acc: Pubkey,
        sysvar_rent_acc: Pubkey,
    ) -> (r: Result<Instruction, ProgramError>)
        ensures
            r is Ok,
            r->Ok_0@ == spec_spl_initialize_account_ix(
                program_id@,
                owner@,
                token_acc@,
                target_acc@,
                sysvar_rent_acc@,
            ),
    {
        let mut data: Vec<u8> = Vec::new();
        data.push(1);
        let mut accounts: Vec<AccountMeta> = Vec::new();
        accounts.push(AccountMeta::new(target_acc, false));
        accounts.push(AccountMeta::new_readonly(token_acc, false));
        accounts.push(AccountMeta::new_readonly(owner, false));
        accounts.push(AccountMeta::new_readonly(sysvar_rent_acc, false));
        let ix = Instruction { program_id, accounts, data };
        proof {
            assert(ix@.accounts =~= spec_spl_initialize_account_ix(
                program_id@,
                owner@,
                token_acc@,
                target_acc@,
                sysvar_rent_acc@,
            ).accounts);
            assert(ix@.data =~= seq![1u8]);
            assert(ix@ =~= spec_spl_initialize_account_ix(
                program_id@,
                owner@,
                token_acc@,
                target_acc@,
                sysvar_rent_acc@,
            ));
        }
        Ok(ix)
    }

    /// Build the foreign ledger's transfer instruction.
    pub fn transfer(
        program_id: Pubkey,
        owner: Pubkey,
        src_acc: Pubkey,
        dst_acc: Pubkey,
        amount: u64,
    ) -> (r: Result<Instruction, ProgramError>)
        ensures
            r is Ok,
            r->Ok_0@ == spec_spl_transfer_ix(program_id@, owner@, src_acc@, dst_acc@, amount),
    {
        let mut data: Vec<u8> = Vec::new();
        data.push(3);
        write_u64_le(&mut data, amount);
        let mut accounts: Vec<AccountMeta> = Vec::new();
        accounts.push(AccountMeta::new(src_acc, false));
        accounts.push(AccountMeta::new(dst_acc, false));
        accounts.push(AccountMeta::new_readonly(owner, true));
        let ix = Instruction { program_id, accounts, data };
        proof {
            assert(ix@.accounts =~= spec_spl_transfer_ix(
                program_id@,
                owner@,
                src_acc@,
                dst_acc@,
                amount,
            ).accounts);
            assert(ix@ =~= spec_spl_transfer_ix(program_id@, owner@, src_acc@, dst_acc@, amount));
        }
        Ok(ix)
    }
}

/// The mint-constructor instruction of this repository's own token ledger:
/// tag 0, the first three symbol code points as 4-byte little-endian values,
/// the little-endian supply and the decimals, over the signing owner, mint
/// and destination slots.
pub open spec fn spec_src20_token_constructor_ix(
    program_id: Seq<u8>,
    owner: Seq<u8>,
    token_acc: Seq<u8>,
    dst_acc: Seq<u8>,
    symbol: Seq<u32>,
    total_supply: u64,
    decimals: u8,
) -> InstructionView {
    InstructionView {
        program_id,
        accounts: seq![
            AccountMetaView { pubkey: owner, is_signer: true, is_writable: false },
            AccountMetaView { pubkey: token_acc, is_signer: true, is_writable: true },
            AccountMetaView { pubkey: dst_acc, is_signer: true, is_writable: true },
        ],
        data: seq![0u8] + spec_u32_to_le_bytes(symbol[0]) + spec_u32_to_le_bytes(symbol[1])
            + spec_u32_to_le_bytes(symbol[2]) + spec_u64_to_le_bytes(total_supply) + seq![decimals],
    }
}

/// The transfer instruction of this repository's own token ledger: tag 3
/// with the little-endian amount, over the signing owner, the mint, the
/// source and the destination.
pub open spec fn spec_src20_transfer_ix(
    program_id: Seq<u8>,
    owner: Seq<u8>,
    token_acc: Seq<u8>,
    src_acc: Seq<u8>,
    dst_acc: Seq<u8>,
    amount: u64,
) -> InstructionView {
    InstructionView {
        program_id,
        accounts: seq![
            AccountMetaView { pubkey: owner, is_signer: true, is_writable: false },
            AccountMetaView { pubkey: token_acc, is_signer: false, is_writable: false },
            AccountMetaView { pubkey: src_acc, is_signer: false, is_writable: true },
            AccountMetaView { pubkey: dst_acc, is_signer: false, is_writable: true },
        ],
        data: seq![3u8] + spec_u64_to_le_bytes(amount),
    }
}

/// Builders for this repository's own token ledger instruction format.
pub struct ISRC20 {}

impl ISRC20 {
    /// Build the ledger's mint-constructor instruction. The target ledger
    /// stores a three-code-point symbol, so the bridge symbol's fourth code
    /// point is not carried over.
    pub fn token_constructor(
        program_id: Pubkey,
        owner: Pubkey,
        token_acc: Pubkey,
        dst_acc: Pubkey,
        symbol: [char; 4],
        total_supply: u64,
        decimals: u8,
    ) -> (r: Result<Instruction, ProgramError>)
        ensures
            r is Ok,
            r->Ok_0@ == spec_src20_token_constructor_ix(
                program_id@,
                owner@,
                token_acc@,
                dst_acc@,
                seq![
                    symbol@[0] as u32,
                    symbol@[1] as u32,
                    symbol@[2] as u32,
                    symbol@[3] as u32,
                ],
                total_supply,
                decimals,
            ),
    {
        let mut data: Vec<u8> = Vec::new();
        data.push(0);
        crate::codec::write_u32_le(&mut data, symbol[0] as u32);
        crate::codec::write_u32_le(&mut data, symbol[1] as u32);
        crate::codec::write_u32_le(&mut data, symbol[2] as u32);
        write_u64_le(&mut data, total_supply);
        data.push(decimals);
        let mut accounts: Vec<AccountMeta> = Vec::new();
        accounts.push(AccountMeta::new_readonly(owner, true));
        accounts.push(AccountMeta::new(token_acc, true));
        accounts.push(AccountMeta::new(dst_acc, true));
        let ix = Instruction { program_id, accounts, data };
        proof {
            let symv = seq![
                symbol@[0] as u32,
                symbol@[1] as u32,
                symbol@[2] as u32,
                symbol@[3] as u32,
            ];
            let want = spec_src20_token_constructor_ix(
                program_id@,
                owner@,
                token_acc@,
                dst_acc@,
                symv,
                total_supply,
                decimals,
            );
            assert(ix@.accounts =~= want.accounts);
            assert(ix@.data =~= want.data);
            assert(ix@ =~= want);
        }
        Ok(ix)
    }

    /// Build the ledger's transfer instruction.
    pub fn transfer(
        program_id: Pubkey,
        owner: Pubkey,
        token_acc: Pubkey,
        src_acc: Pubkey,
        dst_acc: Pubkey,
        amount: u64,
    ) -> (r: Result<Instruction, ProgramError>)
        ensures
            r is Ok,
            r->Ok_0@ == spec_src20_transfer_ix(
                program_id@,
                owner@,
                token_acc@,
                src_acc@,
                dst_acc@,
                amount,
            ),
    {
        let mut data: Vec<u8> = Vec::new();
        data.push(3);
        write_u64_le(&mut data, amount);
        let mut accounts: Vec<AccountMeta> = Vec::new();
        accounts.push(AccountMeta::new_readonly(owner, true));
        accounts.push(AccountMeta::new_readonly(token_acc, false));
        accounts.push(AccountMeta::new(src_acc, false));
        accounts.push(AccountMeta::new(dst_acc, false));
        let ix = Instruction { program_id, accounts, data };
        proof {
            let want = spec_src20_transfer_ix(
                program_id@,
                owner@,
                token_acc@,
                src_acc@,
                dst_acc@,
                amount,
            );
            assert(ix@.accounts =~= want.accounts);
            assert(ix@ =~= want);
        }
        Ok(ix)
    }
}

} // verus!
