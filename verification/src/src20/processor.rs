//! The token ledger's state machine: validates every precondition of a
//! decoded instruction against the supplied slots, then applies the mutation
//! atomically, or rejects the whole invocation leaving every slot unchanged.
use crate::program_error::ProgramError;
use crate::pubkey::Pubkey;
use crate::slot::{Slot, SlotView, slot_views};
use crate::src20::error::AppError;
use crate::src20::instruction::{AppInstruction, AppInstructionView, spec_unpack};
use crate::src20::schema::{Account, AccountView, Delegation, DelegationView, Token, TokenView,
    spec_pack_account, spec_pack_delegation, spec_pack_token, spec_unpack_account,
    spec_unpack_account_unchecked, spec_unpack_delegation, spec_unpack_delegation_unchecked,
    spec_unpack_token, spec_unpack_token_unchecked};
use vstd::prelude::*;

verus! {

/// The ledger's state-transition engine.
pub struct Processor {}

/// What the mint constructor does: with the mint slot and the destination
/// balance slot owned by this program, all three slots signing, and both
/// records not yet constructed, it writes the mint record and credits the
/// whole supply to the deployer's balance account.
pub open spec fn spec_token_constructor(
    program_id: Seq<u8>,
    s: Seq<SlotView>,
    symbol: Seq<u32>,
    total_supply: u64,
    decimals: u8,
) -> Result<Seq<SlotView>, ProgramError> {
    if s.len() < 3 {
        Err(ProgramError::NotEnoughAccountKeys)
    } else {
        let deployer = s[0];
        let token_acc = s[1];
        let dst_acc = s[2];
        if token_acc.owner != program_id || dst_acc.owner != program_id {
            Err(AppError::IncorrectProgramId.spec_to_program_error())
        } else if !deployer.is_signer || !token_acc.is_signer || !dst_acc.is_signer {
            Err(AppError::InvalidOwner.spec_to_program_error())
        } else if spec_unpack_token_unchecked(token_acc.data) is None {
            Err(ProgramError::InvalidAccountData)
        } else if spec_unpack_account_unchecked(dst_acc.data) is None {
            Err(ProgramError::InvalidAccountData)
        } else {
            let token = spec_unpack_token_unchecked(token_acc.data)->Some_0;
            let dst = spec_unpack_account_unchecked(dst_acc.data)->Some_0;
            if token.initialized || dst.initialized {
                Err(AppError::ConstructorOnce.spec_to_program_error())
            } else if dst.amount + total_supply > u64::MAX {
                Err(AppError::Overflow.spec_to_program_error())
            } else {
                let token2 = TokenView { symbol, total_supply, decimals, initialized: true };
                let dst2 = AccountView {
                    owner: deployer.key,
                    token: token_acc.key,
                    amount: (dst.amount + total_supply) as u64,
                    initialized: true,
                };
                Ok(
                    s.update(1, token_acc.with_data(spec_pack_token(token2))).update(
                        2,
                        dst_acc.with_data(spec_pack_account(dst2)),
                    ),
                )
            }
        }
    }
}

/// What the account constructor does: with the mint initialized and the
/// target slot not yet constructed, it writes a zero-balance account owned by
/// the calling signer.
pub open spec fn spec_account_constructor(program_id: Seq<u8>, s: Seq<SlotView>) -> Result<
    Seq<SlotView>,
    ProgramError,
> {
    if s.len() < 3 {
        Err(ProgramError::NotEnoughAccountKeys)
    } else {
        let caller = s[0];
        let token_acc = s[1];
        let target_acc = s[2];
        if token_acc.owner != program_id || target_acc.owner != program_id {
            Err(AppError::IncorrectProgramId.spec_to_program_error())
        } else if !caller.is_signer || !target_acc.is_signer {
            Err(AppError::InvalidOwner.spec_to_program_error())
        } else if spec_unpack_token(token_acc.data) is None {
            Err(ProgramError::InvalidAccountData)
        } else if spec_unpack_account_unchecked(target_acc.data) is None {
            Err(ProgramError::InvalidAccountData)
        } else {
            let token = spec_unpack_token(token_acc.data)->Some_0;
            let target = spec_unpack_account_unchecked(target_acc.data)->Some_0;
            if !token.initialized {
                Err(AppError::NotInitialized.spec_to_program_error())
            } else if target.initialized {
                Err(AppError::ConstructorOnce.spec_to_program_error())
            } else {
                let target2 = AccountView {
                    owner: caller.key,
                    token: token_acc.key,
                    amount: 0,
                    initialized: true,
                };
                Ok(s.update(2, target_acc.with_data(spec_pack_account(target2))))
            }
        }
    }
}

/// What a transfer does: with every record initialized, both balance
/// accounts on the given mint and the source's owner signing, it moves
/// `amount` from source to destination with checked arithmetic. A transfer
/// whose source and destination are the same slot succeeds without touching
/// anything.
pub open spec fn spec_transfer(program_id: Seq<u8>, s: Seq<SlotView>, amount: u64) -> Result<
    Seq<SlotView>,
    ProgramError,
> {
    if s.len() < 4 {
        Err(ProgramError::NotEnoughAccountKeys)
    } else {
        let owner = s[0];
        let token_acc = s[1];
        let src_acc = s[2];
        let dst_acc = s[3];
        if token_acc.owner != program_id || src_acc.owner != program_id || dst_acc.owner
            != program_id {
            Err(AppError::IncorrectProgramId.spec_to_program_error())
        } else if spec_unpack_token(token_acc.data) is None {
            Err(ProgramError::InvalidAccountData)
        } else if spec_unpack_account(src_acc.data) is None {
            Err(ProgramError::InvalidAccountData)
        } else if spec_unpack_account(dst_acc.data) is None {
            Err(ProgramError::InvalidAccountData)
        } else {
            let token = spec_unpack_token(token_acc.data)->Some_0;
            let src = spec_unpack_account(src_acc.data)->Some_0;
            let dst = spec_unpack_account(dst_acc.data)->Some_0;
            if !token.initialized || !src.initialized || !dst.initialized {
                Err(AppError::NotInitialized.spec_to_program_error())
            } else if src.token != token_acc.key || dst.token != token_acc.key {
                Err(AppError::IncorrectTokenId.spec_to_program_error())
            } else if !owner.is_signer || owner.key != src.owner {
                Err(AppError::InvalidOwner.spec_to_program_error())
            } else if src_acc.key == dst_acc.key {
                Ok(s)
            } else if src.amount < amount {
                Err(AppError::Overflow.spec_to_program_error())
            } else if dst.amount + amount > u64::MAX {
                Err(AppError::Overflow.spec_to_program_error())
            } else {
                let src2 = AccountView { amount: (src.amount - amount) as u64, ..src };
                let dst2 = AccountView { amount: (dst.amount + amount) as u64, ..dst };
                Ok(
                    s.update(2, src_acc.with_data(spec_pack_account(src2))).update(
                        3,
                        dst_acc.with_data(spec_pack_account(dst2)),
                    ),
                )
            }
        }
    }
}

/// What approve does: with the mint and the source account initialized, the
/// delegation slot not yet constructed but signing, and the source's owner
/// signing, it writes a delegation granting `amount` to the delegate.
pub open spec fn spec_approve(program_id: Seq<u8>, s: Seq<SlotView>, amount: u64) -> Result<
    Seq<SlotView>,
    ProgramError,
> {
    if s.len() < 5 {
        Err(ProgramError::NotEnoughAccountKeys)
    } else {
        let owner = s[0];
        let token_acc = s[1];
        let delegation_acc = s[2];
        let src_acc = s[3];
        let dlg_acc = s[4];
        if token_acc.owner != program_id || delegation_acc.owner != program_id || src_acc.owner
            != program_id {
            Err(AppError::IncorrectProgramId.spec_to_program_error())
        } else if spec_unpack_token(token_acc.data) is None {
            Err(ProgramError::InvalidAccountData)
        } else if spec_unpack_delegation_unchecked(delegation_acc.data) is None {
            Err(ProgramError::InvalidAccountData)
        } else if spec_unpack_account(src_acc.data) is None {
            Err(ProgramError::InvalidAccountData)
        } else {
            let token = spec_unpack_token(token_acc.data)->Some_0;
            let delegation = spec_unpack_delegation_unchecked(delegation_acc.data)->Some_0;
            let src = spec_unpack_account(src_acc.data)->Some_0;
            if !token.initialized || !src.initialized {
                Err(AppError::NotInitialized.spec_to_program_error())
            } else if delegation.initialized {
                Err(AppError::ConstructorOnce.spec_to_program_error())
            } else if src.token != token_acc.key {
                Err(AppError::IncorrectTokenId.spec_to_program_error())
            } else if !owner.is_signer || !delegation_acc.is_signer || owner.key != src.owner {
                Err(AppError::InvalidOwner.spec_to_program_error())
            } else {
                let delegation2 = DelegationView {
                    owner: owner.key,
                    token: token_acc.key,
                    source: src_acc.key,
                    delegate: dlg_acc.key,
                    amount,
                    initialized: true,
                };
                Ok(s.update(2, delegation_acc.with_data(spec_pack_delegation(delegation2))))
            }
        }
    }
}

/// What transfer-from does: with every record initialized and on the given
/// mint, and the delegation's delegate signing, it decrements the remaining
/// allowance and moves `amount` from source to destination, all with checked
/// arithmetic. The same-slot case succeeds without touching anything.
pub open spec fn spec_transfer_from(program_id: Seq<u8>, s: Seq<SlotView>, amount: u64) -> Result<
    Seq<SlotView>,
    ProgramError,
> {
    if s.len() < 5 {
        Err(ProgramError::NotEnoughAccountKeys)
    } else {
        let delegate = s[0];
        let token_acc = s[1];
        let delegation_acc = s[2];
        let src_acc = s[3];
        let dst_acc = s[4];
        if token_acc.owner != program_id || delegation_acc.owner != program_id || src_acc.owner
            != program_id || dst_acc.owner != program_id {
            Err(AppError::IncorrectProgramId.spec_to_program_error())
        } else if spec_unpack_token(token_acc.data) is None {
            Err(ProgramError::InvalidAccountData)
        } else if spec_unpack_delegation_unchecked(delegation_acc.data) is None {
            Err(ProgramError::InvalidAccountData)
        } else if spec_unpack_account(src_acc.data) is None {
            Err(ProgramError::InvalidAccountData)
        } else if spec_unpack_account(dst_acc.data) is None {
            Err(ProgramError::InvalidAccountData)
        } else {
            let token = spec_unpack_token(token_acc.data)->Some_0;
            let delegation = spec_unpack_delegation_unchecked(delegation_acc.data)->Some_0;
            let src = spec_unpack_account(src_acc.data)->Some_0;
            let dst = spec_unpack_account(dst_acc.data)->Some_0;
            if !token.initialized || !delegation.initialized || !src.initialized
                || !dst.initialized {
                Err(AppError::NotInitialized.spec_to_program_error())
            } else if delegation.token != token_acc.key || src.token != token_acc.key || dst.token
                != token_acc.key {
                Err(AppError::IncorrectTokenId.spec_to_program_error())
            } else if !delegate.is_signer || delegate.key != delegation.delegate {
                Err(AppError::InvalidOwner.spec_to_program_error())
            } else if src_acc.key == dst_acc.key {
                Ok(s)
            } else if delegation.amount < amount {
                Err(AppError::Overflow.spec_to_program_error())
            } else if src.amount < amount {
                Err(AppError::Overflow.spec_to_program_error())
            } else if dst.amount + amount > u64::MAX {
                Err(AppError::Overflow.spec_to_program_error())
            } else {
                let delegation2 = DelegationView {
                    amount: (delegation.amount - amount) as u64,
                    ..delegation
                };
                let src2 = AccountView { amount: (src.amount - amount) as u64, ..src };
                let dst2 = AccountView { amount: (dst.amount + amount) as u64, ..dst };
                Ok(
                    s.update(2, delegation_acc.with_data(spec_pack_delegation(delegation2))).update(
                        3,
                        src_acc.with_data(spec_pack_account(src2)),
                    ).update(4, dst_acc.with_data(spec_pack_account(dst2))),
                )
            }
        }
    }
}

/// What revoke does: with the delegation initialized, on the given mint and
/// its owner signing, it zeroes the remaining allowance and hands the
/// delegation slot's whole storage deposit back to the owner, with checked
/// arithmetic on the deposit.
pub open spec fn spec_revoke(program_id: Seq<u8>, s: Seq<SlotView>) -> Result<
    Seq<SlotView>,
    ProgramError,
> {
    if s.len() < 3 {
        Err(ProgramError::NotEnoughAccountKeys)
    } else {
        let owner = s[0];
        let token_acc = s[1];
        let delegation_acc = s[2];
        if token_acc.owner != program_id || delegation_acc.owner != program_id {
            Err(AppError::IncorrectProgramId.spec_to_program_error())
        } else if spec_unpack_delegation(delegation_acc.data) is None {
            Err(ProgramError::InvalidAccountData)
        } else {
            let delegation = spec_unpack_delegation(delegation_acc.data)->Some_0;
            if !delegation.initialized {
                Err(AppError::NotInitialized.spec_to_program_error())
            } else if delegation.token != token_acc.key {
                Err(AppError::IncorrectTokenId.spec_to_program_error())
            } else if !owner.is_signer || owner.key != delegation.owner {
                Err(AppError::InvalidOwner.spec_to_program_error())
            } else if owner.lamports + delegation_acc.lamports > u64::MAX {
                Err(AppError::Overflow.spec_to_program_error())
            } else {
                let delegation2 = DelegationView { amount: 0, ..delegation };
                Ok(
                    s.update(
                        0,
                        owner.with_lamports((owner.lamports + delegation_acc.lamports) as u64),
                    ).update(
                        2,
                        delegation_acc.with_lamports(0).with_data(
                            spec_pack_delegation(delegation2),
                        ),
                    ),
                )
            }
        }
    }
}

/// The whole invocation: decode the payload, then apply the decoded
/// instruction's transition. The delegation-constructor tag is accepted and
/// does nothing.
pub open spec fn spec_process(program_id: Seq<u8>, s: Seq<SlotView>, data: Seq<u8>) -> Result<
    Seq<SlotView>,
    ProgramError,
> {
    match spec_unpack(data) {
        Err(e) => Err(e),
        Ok(ix) => match ix {
            AppInstructionView::TokenConstructor { symbol, total_supply, decimals } => {
                spec_token_constructor(program_id, s, symbol, total_supply, decimals)
            },
            AppInstructionView::AccountConstructor {  } => spec_account_constructor(program_id, s),
            AppInstructionView::DelegationConstructor { amount } => Ok(s),
            AppInstructionView::Transfer { amount } => spec_transfer(program_id, s, amount),
            AppInstructionView::Approve { amount } => spec_approve(program_id, s, amount),
            AppInstructionView::TransferFrom { amount } => spec_transfer_from(
                program_id,
                s,
                amount,
            ),
            AppInstructionView::Revoke => spec_revoke(program_id, s),
        },
    }
}

impl Processor {
    /// Run one invocation against the supplied slots. On success the slots
    /// hold exactly the transition's result; on failure no slot has changed.
    pub fn process(
        program_id: &Pubkey,
        accounts: &mut Vec<Slot>,
        instruction_data: &[u8],
    ) -> (r: Result<(), ProgramError>)
        ensures
            match r {
                Ok(_) => spec_process(program_id@, slot_views(old(accounts)@), instruction_data@)
                    == Ok::<_, ProgramError>(slot_views(final(accounts)@)),
                Err(e) => spec_process(program_id@, slot_views(old(accounts)@), instruction_data@)
                    == Err::<Seq<SlotView>, _>(e) && final(accounts)@ == old(accounts)@,
            },
    {
        let ix = match AppInstruction::unpack(instruction_data) {
            Ok(ix) => ix,
            Err(e) => {
                return Err(e);
            },
        };
        match ix {
            AppInstruction::TokenConstructor { symbol, total_supply, decimals } => {
                Self::process_token_constructor(program_id, accounts, symbol, total_supply, decimals)
            },
            AppInstruction::AccountConstructor {  } => {
                Self::process_account_constructor(program_id, accounts)
            },
            AppInstruction::DelegationConstructor { amount: _ } => Ok(()),
            AppInstruction::Transfer { amount } => Self::process_transfer(
                program_id,
                accounts,
                amount,
            ),
            AppInstruction::Approve { amount } => Self::process_approve(
                program_id,
                accounts,
                amount,
            ),
            AppInstruction::TransferFrom { amount } => Self::process_transfer_from(
                program_id,
                accounts,
                amount,
            ),
            AppInstruction::Revoke => Self::process_revoke(program_id, accounts),
        }
    }

    fn process_token_constructor(
        program_id: &Pubkey,
        accounts: &mut Vec<Slot>,
        symbol: [char; 3],
        total_supply: u64,
        decimals: u8,
    ) -> (r: Result<(), ProgramError>)
        ensures
            ({
                let result = spec_token_constructor(
                    program_id@,
                    slot_views(old(accounts)@),
                    seq![symbol@[0] as u32, symbol@[1] as u32, symbol@[2] as u32],
                    total_supply,
                    decimals,
                );
                match r {
                    Ok(_) => result == Ok::<_, ProgramError>(slot_views(final(accounts)@)),
                    Err(e) => result == Err::<Seq<SlotView>, _>(e) && final(accounts)@ == old(
                        accounts,
                    )@,
                }
            }),
    {
        if accounts.len() < 3 {
            return Err(ProgramError::NotEnoughAccountKeys);
        }
        if !accounts[1].owner.eq_key(program_id) || !accounts[2].owner.eq_key(program_id) {
            return Err(AppError::IncorrectProgramId.to_program_error());
        }
        if !accounts[0].is_signer || !accounts[1].is_signer || !accounts[2].is_signer {
            return Err(AppError::InvalidOwner.to_program_error());
        }
        let token = match Token::unpack_unchecked(accounts[1].data.as_slice()) {
            Ok(t) => t,
            Err(e) => {
                return Err(e);
            },
        };
        let dst = match Account::unpack_unchecked(accounts[2].data.as_slice()) {
            Ok(a) => a,
            Err(e) => {
                return Err(e);
            },
        };
        if token.initialized || dst.initialized {
            return Err(AppError::ConstructorOnce.to_program_error());
        }
        if dst.amount > u64::MAX - total_supply {
            return Err(AppError::Overflow.to_program_error());
        }
        let token2 = Token { symbol, total_supply, decimals, initialized: true };
        let dst2 = Account {
            owner: accounts[0].key,
            token: accounts[1].key,
            amount: dst.amount + total_supply,
            initialized: true,
        };
        let ghost s = slot_views(accounts@);
        crate::slot::store_data(accounts, 1, token2.pack_to_vec());
        crate::slot::store_data(accounts, 2, dst2.pack_to_vec());
        proof {
            let symv = seq![symbol@[0] as u32, symbol@[1] as u32, symbol@[2] as u32];
            let token2v = TokenView {
                symbol: symv,
                total_supply,
                decimals,
                initialized: true,
            };
            let dst2v = AccountView {
                owner: s[0].key,
                token: s[1].key,
                amount: (dst@.amount + total_supply) as u64,
                initialized: true,
            };
            assert(token2@ =~= token2v);
            assert(dst2@ =~= dst2v);
            assert(slot_views(accounts@) =~= s.update(
                1,
                s[1].with_data(spec_pack_token(token2v)),
            ).update(2, s[2].with_data(spec_pack_account(dst2v))));
        }
        Ok(())
    }

    fn process_account_constructor(program_id: &Pubkey, accounts: &mut Vec<Slot>) -> (r: Result<
        (),
        ProgramError,
    >)
        ensures
            ({
                let result = spec_account_constructor(program_id@, slot_views(old(accounts)@));
                match r {
                    Ok(_) => result == Ok::<_, ProgramError>(slot_views(final(accounts)@)),
                    Err(e) => result == Err::<Seq<SlotView>, _>(e) && final(accounts)@ == old(
                        accounts,
                    )@,
                }
            }),
    {
        if accounts.len() < 3 {
            return Err(ProgramError::NotEnoughAccountKeys);
        }
        if !accounts[1].owner.eq_key(program_id) || !accounts[2].owner.eq_key(program_id) {
            return Err(AppError::IncorrectProgramId.to_program_error());
        }
        if !accounts[0].is_signer || !accounts[2].is_signer {
            return Err(AppError::InvalidOwner.to_program_error());
        }
        let token = match Token::unpack_from_slice(accounts[1].data.as_slice()) {
            Ok(t) => t,
            Err(e) => {
                return Err(e);
            },
        };
        let target = match Account::unpack_unchecked(accounts[2].data.as_slice()) {
            Ok(a) => a,
            Err(e) => {
                return Err(e);
            },
        };
        if !token.initialized {
            return Err(AppError::NotInitialized.to_program_error());
        }
        if target.initialized {
            return Err(AppError::ConstructorOnce.to_program_error());
        }
        let target2 = Account {
            owner: accounts[0].key,
            token: accounts[1].key,
            amount: 0,
            initialized: true,
        };
        let ghost s = slot_views(accounts@);
        crate::slot::store_data(accounts, 2, target2.pack_to_vec());
        proof {
            let target2v = AccountView {
                owner: s[0].key,
                token: s[1].key,
                amount: 0,
                initialized: true,
            };
            assert(target2@ =~= target2v);
            assert(slot_views(accounts@) =~= s.update(
                2,
                s[2].with_data(spec_pack_account(target2v)),
            ));
        }
        Ok(())
    }

    fn process_transfer(program_id: &Pubkey, accounts: &mut Vec<Slot>, amount: u64) -> (r: Result<
        (),
        ProgramError,
    >)
        ensures
            ({
                let result = spec_transfer(program_id@, slot_views(old(accounts)@), amount);
                match r {
                    Ok(_) => result == Ok::<_, ProgramError>(slot_views(final(accounts)@)),
                    Err(e) => result == Err::<Seq<SlotView>, _>(e) && final(accounts)@ == old(
                        accounts,
                    )@,
                }
            }),
    {
        if accounts.len() < 4 {
            return Err(ProgramError::NotEnoughAccountKeys);
        }
        if !accounts[1].owner.eq_key(program_id) || !accounts[2].owner.eq_key(program_id)
            || !accounts[3].owner.eq_key(program_id) {
            return Err(AppError::IncorrectProgramId.to_program_error());
        }
        let token = match Token::unpack_from_slice(accounts[1].data.as_slice()) {
            Ok(t) => t,
            Err(e) => {
                return Err(e);
            },
        };
        let src = match Account::unpack_from_slice(accounts[2].data.as_slice()) {
            Ok(a) => a,
            Err(e) => {
                return Err(e);
            },
        };
        let dst = match Account::unpack_from_slice(accounts[3].data.as_slice()) {
            Ok(a) => a,
            Err(e) => {
                return Err(e);
            },
        };
        if !token.initialized || !src.initialized || !dst.initialized {
            return Err(AppError::NotInitialized.to_program_error());
        }
        if !src.token.eq_key(&accounts[1].key) || !dst.token.eq_key(&accounts[1].key) {
            return Err(AppError::IncorrectTokenId.to_program_error());
        }
        if !accounts[0].is_signer || !accounts[0].key.eq_key(&src.owner) {
            return Err(AppError::InvalidOwner.to_program_error());
        }
        if accounts[2].key.eq_key(&accounts[3].key) {
            return Ok(());
        }
        if src.amount < amount {
            return Err(AppError::Overflow.to_program_error());
        }
        if dst.amount > u64::MAX - amount {
            return Err(AppError::Overflow.to_program_error());
        }
        let src2 = Account { amount: src.amount - amount, ..src };
        let dst2 = Account { amount: dst.amount + amount, ..dst };
        let ghost s = slot_views(accounts@);
        crate::slot::store_data(accounts, 2, src2.pack_to_vec());
        crate::slot::store_data(accounts, 3, dst2.pack_to_vec());
        proof {
            let src2v = AccountView { amount: (src@.amount - amount) as u64, ..src@ };
            let dst2v = AccountView { amount: (dst@.amount + amount) as u64, ..dst@ };
            assert(src2@ =~= src2v);
            assert(dst2@ =~= dst2v);
            assert(slot_views(accounts@) =~= s.update(
                2,
                s[2].with_data(spec_pack_account(src2v)),
            ).update(3, s[3].with_data(spec_pack_account(dst2v))));
        }
        Ok(())
    }

    fn process_approve(program_id: &Pubkey, accounts: &mut Vec<Slot>, amount: u64) -> (r: Result<
        (),
        ProgramError,
    >)
        ensures
            ({
                let result = spec_approve(program_id@, slot_views(old(accounts)@), amount);
                match r {
                    Ok(_) => result == Ok::<_, ProgramError>(slot_views(final(accounts)@)),
                    Err(e) => result == Err::<Seq<SlotView>, _>(e) && final(accounts)@ == old(
                        accounts,
                    )@,
                }
            }),
    {
        if accounts.len() < 5 {
            return Err(ProgramError::NotEnoughAccountKeys);
        }
        if !accounts[1].owner.eq_key(program_id) || !accounts[2].owner.eq_key(program_id)
            || !accounts[3].owner.eq_key(program_id) {
            return Err(AppError::IncorrectProgramId.to_program_error());
        }
        let token = match Token::unpack_from_slice(accounts[1].data.as_slice()) {
            Ok(t) => t,
            Err(e) => {
                return Err(e);
            },
        };
        let delegation = match Delegation::unpack_unchecked(accounts[2].data.as_slice()) {
            Ok(d) => d,
            Err(e) => {
                return Err(e);
            },
        };
        let src = match Account::unpack_from_slice(accounts[3].data.as_slice()) {
            Ok(a) => a,
            Err(e) => {
                return Err(e);
            },
        };
        if !token.initialized || !src.initialized {
            return Err(AppError::NotInitialized.to_program_error());
        }
        if delegation.initialized {
            return Err(AppError::ConstructorOnce.to_program_error());
        }
        if !src.token.eq_key(&accounts[1].key) {
            return Err(AppError::IncorrectTokenId.to_program_error());
        }
        if !accounts[0].is_signer || !accounts[2].is_signer || !accounts[0].key.eq_key(
            &src.owner,
        ) {
            return Err(AppError::InvalidOwner.to_program_error());
        }
        let delegation2 = Delegation {
            owner: accounts[0].key,
            token: accounts[1].key,
            source: accounts[3].key,
            delegate: accounts[4].key,
            amount,
            initialized: true,
        };
        let ghost s = slot_views(accounts@);
        crate::slot::store_data(accounts, 2, delegation2.pack_to_vec());
        proof {
            let delegation2v = DelegationView {
                owner: s[0].key,
                token: s[1].key,
                source: s[3].key,
                delegate: s[4].key,
                amount,
                initialized: true,
            };
            assert(delegation2@ =~= delegation2v);
            assert(slot_views(accounts@) =~= s.update(
                2,
                s[2].with_data(spec_pack_delegation(delegation2v)),
            ));
        }
        Ok(())
    }

    fn process_transfer_from(
        program_id: &Pubkey,
        accounts: &mut Vec<Slot>,
        amount: u64,
    ) -> (r: Result<(), ProgramError>)
        ensures
            ({
                let result = spec_transfer_from(program_id@, slot_views(old(accounts)@), amount);
                match r {
                    Ok(_) => result == Ok::<_, ProgramError>(slot_views(final(accounts)@)),
                    Err(e) => result == Err::<Seq<SlotView>, _>(e) && final(accounts)@ == old(
                        accounts,
                    )@,
                }
            }),
    {
        if accounts.len() < 5 {
            return Err(ProgramError::NotEnoughAccountKeys);
        }
        if !accounts[1].owner.eq_key(program_id) || !accounts[2].owner.eq_key(program_id)
            || !accounts[3].owner.eq_key(program_id) || !accounts[4].owner.eq_key(program_id) {
            return Err(AppError::IncorrectProgramId.to_program_error());
        }
        let token = match Token::unpack_from_slice(accounts[1].data.as_slice()) {
            Ok(t) => t,
            Err(e) => {
                return Err(e);
            },
        };
        let delegation = match Delegation::unpack_unchecked(accounts[2].data.as_slice()) {
            Ok(d) => d,
            Err(e) => {
                return Err(e);
            },
        };
        let src = match Account::unpack_from_slice(accounts[3].data.as_slice()) {
            Ok(a) => a,
            Err(e) => {
                return Err(e);
            },
        };
        let dst = match Account::unpack_from_slice(accounts[4].data.as_slice()) {
            Ok(a) => a,
            Err(e) => {
                return Err(e);
            },
        };
        if !token.initialized || !delegation.initialized || !src.initialized || !dst.initialized {
            return Err(AppError::NotInitialized.to_program_error());
        }
        if !delegation.token.eq_key(&accounts[1].key) || !src.token.eq_key(&accounts[1].key)
            || !dst.token.eq_key(&accounts[1].key) {
            return Err(AppError::IncorrectTokenId.to_program_error());
        }
        if !accounts[0].is_signer || !accounts[0].key.eq_key(&delegation.delegate) {
            return Err(AppError::InvalidOwner.to_program_error());
        }
        if accounts[3].key.eq_key(&accounts[4].key) {
            return Ok(());
        }
        if delegation.amount < amount {
            return Err(AppError::Overflow.to_program_error());
        }
        if src.amount < amount {
            return Err(AppError::Overflow.to_program_error());
        }
        if dst.amount > u64::MAX - amount {
            return Err(AppError::Overflow.to_program_error());
        }
        let delegation2 = Delegation { amount: delegation.amount - amount, ..delegation };
        let src2 = Account { amount: src.amount - amount, ..src };
        let dst2 = Account { amount: dst.amount + amount, ..dst };
        let ghost s = slot_views(accounts@);
        crate::slot::store_data(accounts, 2, delegation2.pack_to_vec());
        crate::slot::store_data(accounts, 3, src2.pack_to_vec());
        crate::slot::store_data(accounts, 4, dst2.pack_to_vec());
        proof {
            let delegation2v = DelegationView {
                amount: (delegation@.amount - amount) as u64,
                ..delegation@
            };
            let src2v = AccountView { amount: (src@.amount - amount) as u64, ..src@ };
            let dst2v = AccountView { amount: (dst@.amount + amount) as u64, ..dst@ };
            assert(delegation2@ =~= delegation2v);
            assert(src2@ =~= src2v);
            assert(dst2@ =~= dst2v);
            assert(slot_views(accounts@) =~= s.update(
                2,
                s[2].with_data(spec_pack_delegation(delegation2v)),
            ).update(3, s[3].with_data(spec_pack_account(src2v))).update(
                4,
                s[4].with_data(spec_pack_account(dst2v)),
            ));
        }
        Ok(())
    }

    fn process_revoke(program_id: &Pubkey, accounts: &mut Vec<Slot>) -> (r: Result<
        (),
        ProgramError,
    >)
        ensures
            ({
                let result = spec_revoke(program_id@, slot_views(old(accounts)@));
                match r {
                    Ok(_) => result == Ok::<_, ProgramError>(slot_views(final(accounts)@)),
                    Err(e) => result == Err::<Seq<SlotView>, _>(e) && final(accounts)@ == old(
                        accounts,
                    )@,
                }
            }),
    {
        if accounts.len() < 3 {
            return Err(ProgramError::NotEnoughAccountKeys);
        }
        if !accounts[1].owner.eq_key(program_id) || !accounts[2].owner.eq_key(program_id) {
            return Err(AppError::IncorrectProgramId.to_program_error());
        }
        let delegation = match Delegation::unpack_from_slice(accounts[2].data.as_slice()) {
            Ok(d) => d,
            Err(e) => {
                return Err(e);
            },
        };
        if !delegation.initialized {
            return Err(AppError::NotInitialized.to_program_error());
        }
        if !delegation.token.eq_key(&accounts[1].key) {
            return Err(AppError::IncorrectTokenId.to_program_error());
        }
        if !accounts[0].is_signer || !accounts[0].key.eq_key(&delegation.owner) {
            return Err(AppError::InvalidOwner.to_program_error());
        }
        let owner_lamports = accounts[0].lamports;
        let delegation_lamports = accounts[2].lamports;
        if owner_lamports > u64::MAX - delegation_lamports {
            return Err(AppError::Overflow.to_program_error());
        }
        let delegation2 = Delegation { amount: 0, ..delegation };
        let ghost s = slot_views(accounts@);
        crate::slot::store_lamports(accounts, 0, owner_lamports + delegation_lamports);
        crate::slot::store_lamports(accounts, 2, 0);
        crate::slot::store_data(accounts, 2, delegation2.pack_to_vec());
        proof {
            let delegation2v = DelegationView { amount: 0, ..delegation@ };
            assert(delegation2@ =~= delegation2v);
            assert(slot_views(accounts@) =~= s.update(
                0,
                s[0].with_lamports((s[0].lamports + s[2].lamports) as u64),
            ).update(2, s[2].with_lamports(0).with_data(spec_pack_delegation(delegation2v))));
        }
        Ok(())
    }
}

} // verus!
