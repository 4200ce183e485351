//! The counter program's state machine.
use crate::hello::error::AppError;
use crate::hello::instruction::{AppInstruction, spec_unpack};
use crate::hello::schema::{Hello, HelloView, spec_pack_hello, spec_unpack_hello};
use crate::program_error::ProgramError;
use crate::pubkey::Pubkey;
use crate::slot::{Slot, SlotView, slot_views};
use vstd::prelude::*;

verus! {

/// The counter program's state-transition engine.
pub struct Processor {}

/// What one greeting does: with the slot owned by this program and holding a
/// counter record, it adds the decoded amount to the counter with checked
/// arithmetic.
pub open spec fn spec_say_hello(program_id: Seq<u8>, s: Seq<SlotView>, amount: u32) -> Result<
    Seq<SlotView>,
    ProgramError,
> {
    if s.len() < 1 {
        Err(ProgramError::NotEnoughAccountKeys)
    } else {
        let acc = s[0];
        if acc.owner != program_id {
            Err(AppError::IncorrectProgramId.spec_to_program_error())
        } else if spec_unpack_hello(acc.data) is None {
            Err(ProgramError::InvalidAccountData)
        } else {
            let h = spec_unpack_hello(acc.data)->Some_0;
            if h.times + amount > u32::MAX {
                Err(AppError::Overflow.spec_to_program_error())
            } else {
                let h2 = HelloView { times: (h.times + amount) as u32 };
                Ok(s.update(0, acc.with_data(spec_pack_hello(h2))))
            }
        }
    }
}

/// The whole invocation: decode the payload, then apply the greeting.
pub open spec fn spec_process(program_id: Seq<u8>, s: Seq<SlotView>, data: Seq<u8>) -> Result<
    Seq<SlotView>,
    ProgramError,
> {
    match spec_unpack(data) {
        Err(e) => Err(e),
        Ok(AppInstruction::SayHello { amount }) => spec_say_hello(program_id, s, amount),
    }
}

impl Processor {
    /// Run one invocation against the supplied slots. On success the slots
    /// hold exactly the transition's result; on failure no slot has changed.
    pub fn process(
        program_id: &Pubkey,
        accounts: &mut Vec<Slot>,
        instruction_data: &[u8],
    ) -> (r: Result<(), ProgramError>)
        ensures
            match r {
                Ok(_) => spec_process(program_id@, slot_views(old(accounts)@), instruction_data@)
                    == Ok::<_, ProgramError>(slot_views(final(accounts)@)),
                Err(e) => spec_process(program_id@, slot_views(old(accounts)@), instruction_data@)
                    == Err::<Seq<SlotView>, _>(e) && final(accounts)@ == old(accounts)@,
            },
    {
        let amount = match AppInstruction::unpack(instruction_data) {
            Ok(AppInstruction::SayHello { amount }) => amount,
            Err(e) => {
                return Err(e);
            },
        };
        if accounts.len() < 1 {
            return Err(ProgramError::NotEnoughAccountKeys);
        }
        if !accounts[0].owner.eq_key(program_id) {
            return Err(AppError::IncorrectProgramId.to_program_error());
        }
        let h = match Hello::unpack_from_slice(accounts[0].data.as_slice()) {
            Ok(h) => h,
            Err(e) => {
                return Err(e);
            },
        };
        if h.times > u32::MAX - amount {
            return Err(AppError::Overflow.to_program_error());
        }
        let h2 = Hello { times: h.times + amount };
        let ghost s = slot_views(accounts@);
        let slot = Slot {
            key: accounts[0].key,
            owner: accounts[0].owner,
            is_signer: accounts[0].is_signer,
            lamports: accounts[0].lamports,
            data: h2.pack_to_vec(),
        };
        accounts.set(0, slot);
        proof {
            assert(h2@ =~= HelloView { times: (h@.times + amount) as u32 });
            assert(slot_views(accounts@) =~= s.update(0, s[0].with_data(spec_pack_hello(h2@))));
        }
        Ok(())
    }
}

} // verus!
