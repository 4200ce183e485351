//! Ledger-wide facts proved about the transition functions: conservation of
//! value, construct-once, authorization, allowance accounting, and the
//! same-slot and round-trip behaviour of transfers.
use crate::program_error::ProgramError;
use crate::slot::{SlotView, wf_slots};
use crate::src20::error::AppError;
use crate::src20::processor::{spec_account_constructor, spec_approve, spec_token_constructor,
    spec_transfer, spec_transfer_from};
use crate::src20::schema::{AccountView, DelegationView, TokenView, lemma_account_round_trip,
    lemma_account_unchecked_round_trip, lemma_delegation_unchecked_round_trip,
    lemma_token_unchecked_round_trip, spec_pack_account, spec_unpack_account,
    spec_unpack_account_unchecked, spec_unpack_delegation_unchecked, spec_unpack_token};
use vstd::prelude::*;

verus! {

/// How much a slot contributes to a mint's circulating total: the amount of
/// the initialized balance account it holds on that mint, else nothing.
pub open spec fn account_amount(v: SlotView, token_key: Seq<u8>) -> int {
    match spec_unpack_account(v.data) {
        Some(a) => if a.initialized && a.token == token_key {
            a.amount as int
        } else {
            0
        },
        None => 0,
    }
}

/// The summed balance, over a list of slots, of one mint's initialized
/// balance accounts.
pub open spec fn total_amount(s: Seq<SlotView>, token_key: Seq<u8>) -> int
    decreases s.len(),
{
    if s.len() == 0 {
        0
    } else {
        account_amount(s[0], token_key) + total_amount(s.drop_first(), token_key)
    }
}

/// Replacing one slot moves the total by exactly that slot's contribution.
pub proof fn lemma_total_amount_update(s: Seq<SlotView>, i: int, v: SlotView, token_key: Seq<u8>)
    requires
        0 <= i < s.len(),
    ensures
        total_amount(s.update(i, v), token_key) == total_amount(s, token_key) - account_amount(
            s[i],
            token_key,
        ) + account_amount(v, token_key),
    decreases s.len(),
{
    if i == 0 {
        assert(s.update(0, v).drop_first() =~= s.drop_first());
    } else {
        assert(s.update(i, v).drop_first() =~= s.drop_first().update(i - 1, v));
        lemma_total_amount_update(s.drop_first(), i - 1, v, token_key);
    }
}

/// Conservation: a successful transfer never changes the summed balance of
/// the mint's accounts across the whole slot list. With every single step
/// conserving the total, any sequence of transfers conserves it too (see
/// `lemma_transfer_chain_conserves`).
pub proof fn lemma_transfer_conserves(
    program_id: Seq<u8>,
    s: Seq<SlotView>,
    amount: u64,
    s2: Seq<SlotView>,
)
    requires
        spec_transfer(program_id, s, amount) == Ok::<_, ProgramError>(s2),
    ensures
        total_amount(s2, s[1].key) == total_amount(s, s[1].key),
{
    let token_key = s[1].key;
    if s[2].key == s[3].key {
    } else {
        let src = spec_unpack_account(s[2].data)->Some_0;
        let dst = spec_unpack_account(s[3].data)->Some_0;
        let src2 = AccountView { amount: (src.amount - amount) as u64, ..src };
        let dst2 = AccountView { amount: (dst.amount + amount) as u64, ..dst };
        assert(src.wf() && dst.wf());
        lemma_account_round_trip(src2);
        lemma_account_round_trip(dst2);
        let mid = s.update(2, s[2].with_data(spec_pack_account(src2)));
        lemma_total_amount_update(s, 2, s[2].with_data(spec_pack_account(src2)), token_key);
        lemma_total_amount_update(mid, 3, s[3].with_data(spec_pack_account(dst2)), token_key);
    }
}

/// One step of a transfer chain: some transfer amount takes the slot list
/// from `s1` to `s2`, with the mint slot in its usual position.
pub open spec fn transfer_step(program_id: Seq<u8>, s1: Seq<SlotView>, s2: Seq<SlotView>) -> bool {
    exists|amount: u64| spec_transfer(program_id, s1, amount) == Ok::<_, ProgramError>(s2)
}

/// The mint slot's key survives a successful transfer.
pub proof fn lemma_transfer_keeps_token_slot(
    program_id: Seq<u8>,
    s: Seq<SlotView>,
    amount: u64,
    s2: Seq<SlotView>,
)
    requires
        spec_transfer(program_id, s, amount) == Ok::<_, ProgramError>(s2),
    ensures
        s2.len() == s.len(),
        s2[1] == s[1],
{
}

/// Conservation over a whole run: across any chain of successful transfers,
/// the summed balance of the mint's accounts in the final slot list equals
/// the one in the initial list.
pub proof fn lemma_transfer_chain_conserves(program_id: Seq<u8>, chain: Seq<Seq<SlotView>>)
    requires
        chain.len() >= 1,
        chain.first().len() >= 4,
        forall|i: int|
            0 <= i < chain.len() - 1 ==> transfer_step(program_id, #[trigger] chain[i], chain[i
                + 1]),
    ensures
        total_amount(chain.last(), chain.first()[1].key) == total_amount(
            chain.first(),
            chain.first()[1].key,
        ),
    decreases chain.len(),
{
    if chain.len() > 1 {
        let amount = choose|amount: u64|
            spec_transfer(program_id, chain[0], amount) == Ok::<_, ProgramError>(chain[1]);
        lemma_transfer_conserves(program_id, chain[0], amount, chain[1]);
        lemma_transfer_keeps_token_slot(program_id, chain[0], amount, chain[1]);
        let rest = chain.drop_first();
        assert(forall|i: int|
            0 <= i < rest.len() - 1 ==> transfer_step(program_id, #[trigger] rest[i], rest[i + 1]));
        lemma_transfer_chain_conserves(program_id, rest);
    }
}

/// Construct-once: after a successful mint construction, a second run of the
/// mint constructor on the same slots fails with the constructor-once error.
/// Since every failing transition returns the slot list unchanged, the failed
/// attempt leaves the slots exactly as they were.
pub proof fn lemma_token_constructor_once(
    program_id: Seq<u8>,
    s: Seq<SlotView>,
    symbol: Seq<u32>,
    total_supply: u64,
    decimals: u8,
    s2: Seq<SlotView>,
    symbol2: Seq<u32>,
    total_supply2: u64,
    decimals2: u8,
)
    requires
        wf_slots(s),
        (TokenView { symbol, total_supply, decimals, initialized: true }).wf(),
        spec_token_constructor(program_id, s, symbol, total_supply, decimals) == Ok::<
            _,
            ProgramError,
        >(s2),
    ensures
        spec_token_constructor(program_id, s2, symbol2, total_supply2, decimals2) == Err::<
            Seq<SlotView>,
            _,
        >(AppError::ConstructorOnce.spec_to_program_error()),
{
    let dst = spec_unpack_account_unchecked(s[2].data)->Some_0;
    let token2 = TokenView { symbol, total_supply, decimals, initialized: true };
    let dst2 = AccountView {
        owner: s[0].key,
        token: s[1].key,
        amount: (dst.amount + total_supply) as u64,
        initialized: true,
    };
    assert(dst2.wf());
    lemma_token_unchecked_round_trip(token2);
    lemma_account_unchecked_round_trip(dst2);
}

/// Construct-once: after a successful balance-account construction, a second
/// run of the account constructor on the same slots fails with the
/// constructor-once error, leaving the slots unchanged.
pub proof fn lemma_account_constructor_once(program_id: Seq<u8>, s: Seq<SlotView>, s2: Seq<SlotView>)
    requires
        wf_slots(s),
        spec_account_constructor(program_id, s) == Ok::<_, ProgramError>(s2),
    ensures
        spec_account_constructor(program_id, s2) == Err::<Seq<SlotView>, _>(
            AppError::ConstructorOnce.spec_to_program_error(),
        ),
{
    let target2 = AccountView { owner: s[0].key, token: s[1].key, amount: 0, initialized: true };
    assert(target2.wf());
    lemma_account_unchecked_round_trip(target2);
}

/// Construct-once: after a successful approval, a second approval on the
/// same slots fails with the constructor-once error, leaving the slots
/// unchanged.
pub proof fn lemma_approve_once(
    program_id: Seq<u8>,
    s: Seq<SlotView>,
    amount: u64,
    s2: Seq<SlotView>,
    amount2: u64,
)
    requires
        wf_slots(s),
        spec_approve(program_id, s, amount) == Ok::<_, ProgramError>(s2),
    ensures
        spec_approve(program_id, s2, amount2) == Err::<Seq<SlotView>, _>(
            AppError::ConstructorOnce.spec_to_program_error(),
        ),
{
    let delegation2 = DelegationView {
        owner: s[0].key,
        token: s[1].key,
        source: s[3].key,
        delegate: s[4].key,
        amount,
        initialized: true,
    };
    assert(delegation2.wf());
    lemma_delegation_unchecked_round_trip(delegation2);
}

/// Authorization: a transfer whose slots pass every storage, parsing,
/// initialization and mint check, but whose authorizing slot is not the
/// source owner signing, fails with the invalid-owner error; a failing
/// transition leaves every slot unchanged.
pub proof fn lemma_transfer_requires_owner(program_id: Seq<u8>, s: Seq<SlotView>, amount: u64)
    requires
        s.len() >= 4,
        s[1].owner == program_id && s[2].owner == program_id && s[3].owner == program_id,
        spec_unpack_token(s[1].data) is Some,
        spec_unpack_account(s[2].data) is Some,
        spec_unpack_account(s[3].data) is Some,
        spec_unpack_token(s[1].data)->Some_0.initialized,
        spec_unpack_account(s[2].data)->Some_0.initialized,
        spec_unpack_account(s[3].data)->Some_0.initialized,
        spec_unpack_account(s[2].data)->Some_0.token == s[1].key,
        spec_unpack_account(s[3].data)->Some_0.token == s[1].key,
        !(s[0].is_signer && s[0].key == spec_unpack_account(s[2].data)->Some_0.owner),
    ensures
        spec_transfer(program_id, s, amount) == Err::<Seq<SlotView>, _>(
            AppError::InvalidOwner.spec_to_program_error(),
        ),
{
}

/// Same-slot transfer: a transfer whose source and destination are the same
/// slot succeeds and leaves every slot, and so both balances, unchanged.
pub proof fn lemma_transfer_same_slot(program_id: Seq<u8>, s: Seq<SlotView>, amount: u64)
    requires
        s.len() >= 4,
        s[1].owner == program_id && s[2].owner == program_id && s[3].owner == program_id,
        spec_unpack_token(s[1].data) is Some,
        spec_unpack_account(s[2].data) is Some,
        spec_unpack_account(s[3].data) is Some,
        spec_unpack_token(s[1].data)->Some_0.initialized,
        spec_unpack_account(s[2].data)->Some_0.initialized,
        spec_unpack_account(s[3].data)->Some_0.initialized,
        spec_unpack_account(s[2].data)->Some_0.token == s[1].key,
        spec_unpack_account(s[3].data)->Some_0.token == s[1].key,
        s[0].is_signer && s[0].key == spec_unpack_account(s[2].data)->Some_0.owner,
        s[2].key == s[3].key,
    ensures
        spec_transfer(program_id, s, amount) == Ok::<_, ProgramError>(s),
{
}

/// Allowance: after an approval of `a` followed by a successful
/// transfer-from of `b`, the delegation's remaining allowance is exactly
/// `a - b`; and a further transfer-from of `a - b + 1` through the same
/// delegation fails with the overflow error, leaving every slot unchanged.
pub proof fn lemma_allowance(
    program_id: Seq<u8>,
    s: Seq<SlotView>,
    a: u64,
    s2: Seq<SlotView>,
    t: Seq<SlotView>,
    b: u64,
    t2: Seq<SlotView>,
)
    requires
        wf_slots(s),
        spec_approve(program_id, s, a) == Ok::<_, ProgramError>(s2),
        t.len() >= 5,
        t[2] == s2[2],
        t[3].key != t[4].key,
        b <= a,
        a < u64::MAX,
        spec_transfer_from(program_id, t, b) == Ok::<_, ProgramError>(t2),
    ensures
        spec_unpack_delegation_unchecked(t2[2].data)->Some_0.amount == a - b,
        spec_transfer_from(program_id, t2, (a - b + 1) as u64) == Err::<Seq<SlotView>, _>(
            AppError::Overflow.spec_to_program_error(),
        ),
{
    let delegation = DelegationView {
        owner: s[0].key,
        token: s[1].key,
        source: s[3].key,
        delegate: s[4].key,
        amount: a,
        initialized: true,
    };
    assert(delegation.wf());
    lemma_delegation_unchecked_round_trip(delegation);
    let delegation2 = DelegationView { amount: (a - b) as u64, ..delegation };
    assert(delegation2.wf());
    lemma_delegation_unchecked_round_trip(delegation2);
    let src = spec_unpack_account(t[3].data)->Some_0;
    let dst = spec_unpack_account(t[4].data)->Some_0;
    let src2 = AccountView { amount: (src.amount - b) as u64, ..src };
    let dst2 = AccountView { amount: (dst.amount + b) as u64, ..dst };
    assert(src.wf() && dst.wf());
    lemma_account_round_trip(src2);
    lemma_account_round_trip(dst2);
}

/// A transfer of `amount` from source to destination, followed by a transfer
/// of the same `amount` back, restores both balance accounts to their
/// pre-transfer amounts. Together with the bridge builders' payload facts,
/// this is the ledger-side half of wrap/unwrap symmetry.
pub proof fn lemma_transfer_round_trip(
    program_id: Seq<u8>,
    s: Seq<SlotView>,
    amount: u64,
    s2: Seq<SlotView>,
    back_owner: SlotView,
)
    requires
        s.len() >= 4,
        s[2].key != s[3].key,
        spec_transfer(program_id, s, amount) == Ok::<_, ProgramError>(s2),
        back_owner.is_signer,
        back_owner.key == spec_unpack_account(s[3].data)->Some_0.owner,
    ensures
        ({
            let t = seq![back_owner, s2[1], s2[3], s2[2]];
            &&& spec_transfer(program_id, t, amount) is Ok
            &&& spec_unpack_account(
                spec_transfer(program_id, t, amount)->Ok_0[3].data,
            )->Some_0.amount == spec_unpack_account(s[2].data)->Some_0.amount
            &&& spec_unpack_account(
                spec_transfer(program_id, t, amount)->Ok_0[2].data,
            )->Some_0.amount == spec_unpack_account(s[3].data)->Some_0.amount
        }),
{
    let src = spec_unpack_account(s[2].data)->Some_0;
    let dst = spec_unpack_account(s[3].data)->Some_0;
    let src2 = AccountView { amount: (src.amount - amount) as u64, ..src };
    let dst2 = AccountView { amount: (dst.amount + amount) as u64, ..dst };
    assert(src.wf() && dst.wf());
    lemma_account_round_trip(src2);
    lemma_account_round_trip(dst2);
    let t = seq![back_owner, s2[1], s2[3], s2[2]];
    let back_src2 = AccountView { amount: (dst2.amount - amount) as u64, ..dst2 };
    let back_dst2 = AccountView { amount: (src2.amount + amount) as u64, ..src2 };
    lemma_account_round_trip(back_src2);
    lemma_account_round_trip(back_dst2);
    let r = spec_transfer(program_id, t, amount);
    assert(r is Ok);
    assert(r->Ok_0[3].data == spec_pack_account(back_dst2));
    assert(r->Ok_0[2].data == spec_pack_account(back_src2));
}

} // verus!
