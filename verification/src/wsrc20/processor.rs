//! The bridge program's state machine: validates the descriptor and the
//! derived authority, then hands back the sub-invocations the host glue must
//! dispatch against the two bridged ledgers, writing the descriptor on
//! construction.
use crate::program_error::ProgramError;
use crate::pubkey::{Pubkey, derive_authority, derived_address};
use crate::slot::{Slot, SlotView, slot_views};
use crate::wsrc20::error::AppError;
use crate::wsrc20::instruction::{AppInstruction, AppInstructionView, spec_unpack};
use crate::wsrc20::interfaces::{ISPL, ISRC20, SubInvocation, SubInvocationView,
    spec_spl_initialize_account_ix, spec_spl_transfer_ix, spec_src20_token_constructor_ix,
    spec_src20_transfer_ix, sub_views};
use crate::wsrc20::schema::{Mint, Wrapper, WrapperView, spec_pack_wrapper, spec_unpack_mint,
    spec_unpack_wrapper, spec_unpack_wrapper_unchecked};
use vstd::prelude::*;

verus! {

/// The bridge's state-transition engine.
pub struct Processor {}

/// What the bridge constructor does: with the descriptor slot owned by this
/// program, signing, and not yet constructed, and the derived authority
/// matching the supplied authority slot, it reads the foreign mint's supply
/// and decimals, asks for two sub-invocations — constructing the mirrored
/// mint on this repository's ledger under the derived authority, then
/// initializing the foreign ledger's treasury — and writes the descriptor.
pub open spec fn spec_constructor(program_id: Seq<u8>, s: Seq<SlotView>, symbol: Seq<u32>) -> Result<
    (Seq<SlotView>, Seq<SubInvocationView>),
    ProgramError,
> {
    if s.len() < 9 {
        Err(ProgramError::NotEnoughAccountKeys)
    } else {
        let wrapper_acc = s[0];
        let token_owner_acc = s[1];
        let src20_treasury_acc = s[2];
        let src20_token_acc = s[3];
        let src20_token_program = s[4];
        let spl_treasury_acc = s[5];
        let spl_token_acc = s[6];
        let spl_token_program = s[7];
        let sysvar_rent_acc = s[8];
        if wrapper_acc.owner != program_id {
            Err(AppError::IncorrectProgramId.spec_to_program_error())
        } else if derived_address(wrapper_acc.key, program_id) is None {
            Err(ProgramError::InvalidSeeds)
        } else {
            let token_owner_key = derived_address(wrapper_acc.key, program_id)->Some_0;
            if !wrapper_acc.is_signer || token_owner_key != token_owner_acc.key {
                Err(AppError::InvalidOwner.spec_to_program_error())
            } else if spec_unpack_wrapper_unchecked(wrapper_acc.data) is None {
                Err(ProgramError::InvalidAccountData)
            } else if spec_unpack_wrapper_unchecked(wrapper_acc.data)->Some_0.initialized {
                Err(AppError::ConstructorOnce.spec_to_program_error())
            } else if spec_unpack_mint(spl_token_acc.data) is None {
                Err(ProgramError::InvalidAccountData)
            } else {
                let mint = spec_unpack_mint(spl_token_acc.data)->Some_0;
                if !mint.initialized {
                    Err(AppError::NotInitialized.spec_to_program_error())
                } else {
                    let ix1 = spec_src20_token_constructor_ix(
                        src20_token_program.key,
                        token_owner_key,
                        src20_token_acc.key,
                        src20_treasury_acc.key,
                        symbol,
                        mint.supply,
                        mint.decimals,
                    );
                    let ix2 = spec_spl_initialize_account_ix(
                        spl_token_program.key,
                        token_owner_key,
                        spl_token_acc.key,
                        spl_treasury_acc.key,
                        sysvar_rent_acc.key,
                    );
                    let w2 = WrapperView {
                        src20_treasury: src20_treasury_acc.key,
                        src20_token: src20_token_acc.key,
                        spl_treasury: spl_treasury_acc.key,
                        spl_token: spl_token_acc.key,
                        initialized: true,
                    };
                    Ok(
                        (
                            s.update(0, wrapper_acc.with_data(spec_pack_wrapper(w2))),
                            seq![
                                SubInvocationView {
                                    instruction: ix1,
                                    signer_seed: Some(wrapper_acc.key),
                                },
                                SubInvocationView { instruction: ix2, signer_seed: None },
                            ],
                        ),
                    )
                }
            }
        }
    }
}

/// What wrap does: with an initialized descriptor whose four keys match the
/// supplied slots, the owner signing and the derived authority matching, it
/// asks for two sub-invocations — debiting the owner's foreign-ledger account
/// into the foreign treasury, then crediting the destination from this
/// ledger's treasury under the derived authority. No slot changes.
pub open spec fn spec_wrap(program_id: Seq<u8>, s: Seq<SlotView>, amount: u64) -> Result<
    (Seq<SlotView>, Seq<SubInvocationView>),
    ProgramError,
> {
    if s.len() < 11 {
        Err(ProgramError::NotEnoughAccountKeys)
    } else {
        let owner = s[0];
        let src_acc = s[1];
        let dst_acc = s[2];
        let wrapper_acc = s[3];
        let token_owner_acc = s[4];
        let src20_treasury_acc = s[5];
        let src20_token_acc = s[6];
        let src20_token_program = s[7];
        let spl_treasury_acc = s[8];
        let spl_token_acc = s[9];
        let spl_token_program = s[10];
        if wrapper_acc.owner != program_id {
            Err(AppError::IncorrectProgramId.spec_to_program_error())
        } else if derived_address(wrapper_acc.key, program_id) is None {
            Err(ProgramError::InvalidSeeds)
        } else {
            let token_owner_key = derived_address(wrapper_acc.key, program_id)->Some_0;
            if !owner.is_signer || token_owner_key != token_owner_acc.key {
                Err(AppError::InvalidOwner.spec_to_program_error())
            } else if spec_unpack_wrapper(wrapper_acc.data) is None {
                Err(ProgramError::InvalidAccountData)
            } else {
                let w = spec_unpack_wrapper(wrapper_acc.data)->Some_0;
                if !w.initialized {
                    Err(AppError::NotInitialized.spec_to_program_error())
                } else if w.src20_treasury != src20_treasury_acc.key || w.src20_token
                    != src20_token_acc.key || w.spl_treasury != spl_treasury_acc.key || w.spl_token
                    != spl_token_acc.key {
                    Err(AppError::UnmatchedWrapper.spec_to_program_error())
                } else {
                    let ix1 = spec_spl_transfer_ix(
                        spl_token_program.key,
                        owner.key,
                        src_acc.key,
                        spl_treasury_acc.key,
                        amount,
                    );
                    let ix2 = spec_src20_transfer_ix(
                        src20_token_program.key,
                        token_owner_acc.key,
                        src20_token_acc.key,
                        src20_treasury_acc.key,
                        dst_acc.key,
                        amount,
                    );
                    Ok(
                        (
                            s,
                            seq![
                                SubInvocationView { instruction: ix1, signer_seed: None },
                                SubInvocationView {
                                    instruction: ix2,
                                    signer_seed: Some(wrapper_acc.key),
                                },
                            ],
                        ),
                    )
                }
            }
        }
    }
}

/// What unwrap does: the mirror of wrap — debiting the owner's account on
/// this repository's ledger back into its treasury, then crediting the
/// destination from the foreign treasury under the derived authority. No
/// slot changes.
pub open spec fn spec_unwrap(program_id: Seq<u8>, s: Seq<SlotView>, amount: u64) -> Result<
    (Seq<SlotView>, Seq<SubInvocationView>),
    ProgramError,
> {
    if s.len() < 11 {
        Err(ProgramError::NotEnoughAccountKeys)
    } else {
        let owner = s[0];
        let src_acc = s[1];
        let dst_acc = s[2];
        let wrapper_acc = s[3];
        let token_owner_acc = s[4];
        let src20_treasury_acc = s[5];
        let src20_token_acc = s[6];
        let src20_token_program = s[7];
        let spl_treasury_acc = s[8];
        let spl_token_acc = s[9];
        let spl_token_program = s[10];
        if wrapper_acc.owner != program_id {
            Err(AppError::IncorrectProgramId.spec_to_program_error())
        } else if derived_address(wrapper_acc.key, program_id) is None {
            Err(ProgramError::InvalidSeeds)
        } else {
            let token_owner_key = derived_address(wrapper_acc.key, program_id)->Some_0;
            if !owner.is_signer || token_owner_key != token_owner_acc.key {
                Err(AppError::InvalidOwner.spec_to_program_error())
            } else if spec_unpack_wrapper(wrapper_acc.data) is None {
                Err(ProgramError::InvalidAccountData)
            } else {
                let w = spec_unpack_wrapper(wrapper_acc.data)->Some_0;
                if !w.initialized {
                    Err(AppError::NotInitialized.spec_to_program_error())
                } else if w.src20_treasury != src20_treasury_acc.key || w.src20_token
                    != src20_token_acc.key || w.spl_treasury != spl_treasury_acc.key || w.spl_token
                    != spl_token_acc.key {
                    Err(AppError::UnmatchedWrapper.spec_to_program_error())
                } else {
                    let ix1 = spec_src20_transfer_ix(
                        src20_token_program.key,
                        owner.key,
                        src20_token_acc.key,
                        src_acc.key,
                        src20_treasury_acc.key,
                        amount,
                    );
                    let ix2 = spec_spl_transfer_ix(
                        spl_token_program.key,
                        token_owner_acc.key,
                        spl_treasury_acc.key,
                        dst_acc.key,
                        amount,
                    );
                    Ok(
                        (
                            s,
                            seq![
                                SubInvocationView { instruction: ix1, signer_seed: None },
                                SubInvocationView {
                                    instruction: ix2,
                                    signer_seed: Some(wrapper_acc.key),
                                },
                            ],
                        ),
                    )
                }
            }
        }
    }
}

/// The whole invocation: decode the payload, then apply the decoded
/// instruction's transition, yielding the slots' new values and the
/// sub-invocations to dispatch.
pub open spec fn spec_process(program_id: Seq<u8>, s: Seq<SlotView>, data: Seq<u8>) -> Result<
    (Seq<SlotView>, Seq<SubInvocationView>),
    ProgramError,
> {
    match spec_unpack(data) {
        Err(e) => Err(e),
        Ok(ix) => match ix {
            AppInstructionView::Constructor { symbol } => spec_constructor(program_id, s, symbol),
            AppInstructionView::Wrap { amount } => spec_wrap(program_id, s, amount),
            AppInstructionView::Unwrap { amount } => spec_unwrap(program_id, s, amount),
        },
    }
}

impl Processor {
    /// Run one invocation against the supplied slots. On success the slots
    /// hold exactly the transition's result and the returned sub-invocations
    /// are the ones to dispatch, in order; on failure no slot has changed.
    pub fn process(
        program_id: &Pubkey,
        accounts: &mut Vec<Slot>,
        instruction_data: &[u8],
    ) -> (r: Result<Vec<SubInvocation>, ProgramError>)
        ensures
            match r {
                Ok(subs) => spec_process(
                    program_id@,
                    slot_views(old(accounts)@),
                    instruction_data@,
                ) == Ok::<_, ProgramError>((slot_views(final(accounts)@), sub_views(subs@))),
                Err(e) => spec_process(program_id@, slot_views(old(accounts)@), instruction_data@)
                    == Err::<(Seq<SlotView>, Seq<SubInvocationView>), _>(e) && final(accounts)@
                    == old(accounts)@,
            },
    {
        let ix = match AppInstruction::unpack(instruction_data) {
            Ok(ix) => ix,
            Err(e) => {
                return Err(e);
            },
        };
        match ix {
            AppInstruction::Constructor { symbol } => Self::process_constructor(
                program_id,
                accounts,
                symbol,
            ),
            AppInstruction::Wrap { amount } => Self::process_wrap(program_id, accounts, amount),
            AppInstruction::Unwrap { amount } => Self::process_unwrap(program_id, accounts, amount),
        }
    }

    fn process_constructor(
        program_id: &Pubkey,
        accounts: &mut Vec<Slot>,
        symbol: [char; 4],
    ) -> (r: Result<Vec<SubInvocation>, ProgramError>)
        ensures
            ({
                let result = spec_constructor(
                    program_id@,
                    slot_views(old(accounts)@),
                    seq![
                        symbol@[0] as u32,
                        symbol@[1] as u32,
                        symbol@[2] as u32,
                        symbol@[3] as u32,
                    ],
                );
                match r {
                    Ok(subs) => result == Ok::<_, ProgramError>(
                        (slot_views(final(accounts)@), sub_views(subs@)),
                    ),
                    Err(e) => result == Err::<(Seq<SlotView>, Seq<SubInvocationView>), _>(e)
                        && final(accounts)@ == old(accounts)@,
                }
            }),
    {
        if accounts.len() < 9 {
            return Err(ProgramError::NotEnoughAccountKeys);
        }
        if !accounts[0].owner.eq_key(program_id) {
            return Err(AppError::IncorrectProgramId.to_program_error());
        }
        let token_owner_key = match derive_authority(&accounts[0].key, program_id) {
            Some(k) => k,
            None => {
                return Err(ProgramError::InvalidSeeds);
            },
        };
        if !accounts[0].is_signer || !token_owner_key.eq_key(&accounts[1].key) {
            return Err(AppError::InvalidOwner.to_program_error());
        }
        let wrapper = match Wrapper::unpack_unchecked(accounts[0].data.as_slice()) {
            Ok(w) => w,
            Err(e) => {
                return Err(e);
            },
        };
        if wrapper.initialized {
            return Err(AppError::ConstructorOnce.to_program_error());
        }
        let mint = match Mint::unpack_from_slice(accounts[6].data.as_slice()) {
            Ok(m) => m,
            Err(e) => {
                return Err(e);
            },
        };
        if !mint.initialized {
            return Err(AppError::NotInitialized.to_program_error());
        }
        let ix1 = match ISRC20::token_constructor(
            accounts[4].key,
            token_owner_key,
            accounts[3].key,
            accounts[2].key,
            symbol,
            mint.supply,
            mint.decimals,
        ) {
            Ok(ix) => ix,
            Err(e) => {
                return Err(e);
            },
        };
        let ix2 = match ISPL::initialize_account(
            accounts[7].key,
            token_owner_key,
            accounts[6].key,
            accounts[5].key,
            accounts[8].key,
        ) {
            Ok(ix) => ix,
            Err(e) => {
                return Err(e);
            },
        };
        let wrapper2 = Wrapper {
            src20_treasury: accounts[2].key,
            src20_token: accounts[3].key,
            spl_treasury: accounts[5].key,
            spl_token: accounts[6].key,
            initialized: true,
        };
        let seed = accounts[0].key;
        let ghost s = slot_views(accounts@);
        crate::slot::store_data(accounts, 0, wrapper2.pack_to_vec());
        let mut subs: Vec<SubInvocation> = Vec::new();
        subs.push(SubInvocation { instruction: ix1, signer_seed: Some(seed) });
        subs.push(SubInvocation { instruction: ix2, signer_seed: None });
        proof {
            let symv = seq![
                symbol@[0] as u32,
                symbol@[1] as u32,
                symbol@[2] as u32,
                symbol@[3] as u32,
            ];
            let result = spec_constructor(program_id@, s, symv);
            let w2v = WrapperView {
                src20_treasury: s[2].key,
                src20_token: s[3].key,
                spl_treasury: s[5].key,
                spl_token: s[6].key,
                initialized: true,
            };
            assert(wrapper2@ =~= w2v);
            assert(slot_views(accounts@) =~= s.update(0, s[0].with_data(spec_pack_wrapper(w2v))));
            assert(sub_views(subs@) =~= result->Ok_0.1);
        }
        Ok(subs)
    }

    fn process_wrap(program_id: &Pubkey, accounts: &mut Vec<Slot>, amount: u64) -> (r: Result<
        Vec<SubInvocation>,
        ProgramError,
    >)
        ensures
            ({
                let result = spec_wrap(program_id@, slot_views(old(accounts)@), amount);
                match r {
                    Ok(subs) => result == Ok::<_, ProgramError>(
                        (slot_views(final(accounts)@), sub_views(subs@)),
                    ),
                    Err(e) => result == Err::<(Seq<SlotView>, Seq<SubInvocationView>), _>(e)
                        && final(accounts)@ == old(accounts)@,
                }
            }),
    {
        if accounts.len() < 11 {
            return Err(ProgramError::NotEnoughAccountKeys);
        }
        if !accounts[3].owner.eq_key(program_id) {
            return Err(AppError::IncorrectProgramId.to_program_error());
        }
        let token_owner_key = match derive_authority(&accounts[3].key, program_id) {
            Some(k) => k,
            None => {
                return Err(ProgramError::InvalidSeeds);
            },
        };
        if !accounts[0].is_signer || !token_owner_key.eq_key(&accounts[4].key) {
            return Err(AppError::InvalidOwner.to_program_error());
        }
        let wrapper = match Wrapper::unpack_from_slice(accounts[3].data.as_slice()) {
            Ok(w) => w,
            Err(e) => {
                return Err(e);
            },
        };
        if !wrapper.initialized {
            return Err(AppError::NotInitialized.to_program_error());
        }
        if !wrapper.src20_treasury.eq_key(&accounts[5].key) || !wrapper.src20_token.eq_key(
            &accounts[6].key,
        ) || !wrapper.spl_treasury.eq_key(&accounts[8].key) || !wrapper.spl_token.eq_key(
            &accounts[9].key,
        ) {
            return Err(AppError::UnmatchedWrapper.to_program_error());
        }
        let ix1 = match ISPL::transfer(
            accounts[10].key,
            accounts[0].key,
            accounts[1].key,
            accounts[8].key,
            amount,
        ) {
            Ok(ix) => ix,
            Err(e) => {
                return Err(e);
            },
        };
        let ix2 = match ISRC20::transfer(
            accounts[7].key,
            accounts[4].key,
            accounts[6].key,
            accounts[5].key,
            accounts[2].key,
            amount,
        ) {
            Ok(ix) => ix,
            Err(e) => {
                return Err(e);
            },
        };
        let seed = accounts[3].key;
        let mut subs: Vec<SubInvocation> = Vec::new();
        subs.push(SubInvocation { instruction: ix1, signer_seed: None });
        subs.push(SubInvocation { instruction: ix2, signer_seed: Some(seed) });
        proof {
            let result = spec_wrap(program_id@, slot_views(accounts@), amount);
            assert(sub_views(subs@) =~= result->Ok_0.1);
        }
        Ok(subs)
    }

    fn process_unwrap(program_id: &Pubkey, accounts: &mut Vec<Slot>, amount: u64) -> (r: Result<
        Vec<SubInvocation>,
        ProgramError,
    >)
        ensures
            ({
                let result = spec_unwrap(program_id@, slot_views(old(accounts)@), amount);
                match r {
                    Ok(subs) => result == Ok::<_, ProgramError>(
                        (slot_views(final(accounts)@), sub_views(subs@)),
                    ),
                    Err(e) => result == Err::<(Seq<SlotView>, Seq<SubInvocationView>), _>(e)
                        && final(accounts)@ == old(accounts)@,
                }
            }),
    {
        if accounts.len() < 11 {
            return Err(ProgramError::NotEnoughAccountKeys);
        }
        if !accounts[3].owner.eq_key(program_id) {
            return Err(AppError::IncorrectProgramId.to_program_error());
        }
        let token_owner_key = match derive_authority(&accounts[3].key, program_id) {
            Some(k) => k,
            None => {
                return Err(ProgramError::InvalidSeeds);
            },
        };
        if !accounts[0].is_signer || !token_owner_key.eq_key(&accounts[4].key) {
            return Err(AppError::InvalidOwner.to_program_error());
        }
        let wrapper = match Wrapper::unpack_from_slice(accounts[3].data.as_slice()) {
            Ok(w) => w,
            Err(e) => {
                return Err(e);
            },
        };
        if !wrapper.initialized {
            return Err(AppError::NotInitialized.to_program_error());
        }
        if !wrapper.src20_treasury.eq_key(&accounts[5].key) || !wrapper.src20_token.eq_key(
            &accounts[6].key,
        ) || !wrapper.spl_treasury.eq_key(&accounts[8].key) || !wrapper.spl_token.eq_key(
            &accounts[9].key,
        ) {
            return Err(AppError::UnmatchedWrapper.to_program_error());
        }
        let ix1 = match ISRC20::transfer(
            accounts[7].key,
            accounts[0].key,
            accounts[6].key,
            accounts[1].key,
            accounts[5].key,
            amount,
        ) {
            Ok(ix) => ix,
            Err(e) => {
                return Err(e);
            },
        };
        let ix2 = match ISPL::transfer(
            accounts[10].key,
            accounts[4].key,
            accounts[8].key,
            accounts[2].key,
            amount,
        ) {
            Ok(ix) => ix,
            Err(e) => {
                return Err(e);
            },
        };
        let seed = accounts[3].key;
        let mut subs: Vec<SubInvocation> = Vec::new();
        subs.push(SubInvocation { instruction: ix1, signer_seed: None });
        subs.push(SubInvocation { instruction: ix2, signer_seed: Some(seed) });
        proof {
            let result = spec_unwrap(program_id@, slot_views(accounts@), amount);
            assert(sub_views(subs@) =~= result->Ok_0.1);
        }
        Ok(subs)
    }
}

} // verus!
