//! Bridge-wide facts proved about the builders and transitions: the payloads
//! the bridge dispatches decode, on the target ledger, to exactly the
//! intended instructions, and a wrap and the following unwrap dispatch
//! mirror transfers.
use crate::program_error::ProgramError;
use crate::slot::{SlotView, wf_slots};
use crate::src20::instruction::AppInstructionView;
use crate::wsrc20::error::AppError;
use crate::wsrc20::interfaces::{SubInvocationView, spec_src20_token_constructor_ix,
    spec_src20_transfer_ix};
use crate::wsrc20::processor::{spec_constructor, spec_unwrap, spec_wrap};
use crate::wsrc20::schema::{WrapperView, lemma_wrapper_unchecked_round_trip};
use vstd::prelude::*;

verus! {

/// Construct-once: after a successful bridge construction, a second run of
/// the bridge constructor on the same slots fails with the constructor-once
/// error; a failing transition leaves every slot unchanged.
pub proof fn lemma_constructor_once(
    program_id: Seq<u8>,
    s: Seq<SlotView>,
    symbol: Seq<u32>,
    s2: Seq<SlotView>,
    subs: Seq<SubInvocationView>,
    symbol2: Seq<u32>,
)
    requires
        wf_slots(s),
        spec_constructor(program_id, s, symbol) == Ok::<_, ProgramError>((s2, subs)),
    ensures
        spec_constructor(program_id, s2, symbol2) == Err::<
            (Seq<SlotView>, Seq<SubInvocationView>),
            _,
        >(AppError::ConstructorOnce.spec_to_program_error()),
{
    let w2 = WrapperView {
        src20_treasury: s[2].key,
        src20_token: s[3].key,
        spl_treasury: s[5].key,
        spl_token: s[6].key,
        initialized: true,
    };
    assert(w2.wf());
    lemma_wrapper_unchecked_round_trip(w2);
}

/// The ledger-side transfer payload the bridge builds decodes, under the
/// target ledger's own instruction codec, to a transfer of the same amount.
pub proof fn lemma_src20_transfer_ix_decodes(
    program_id: Seq<u8>,
    owner: Seq<u8>,
    token_acc: Seq<u8>,
    src_acc: Seq<u8>,
    dst_acc: Seq<u8>,
    amount: u64,
)
    ensures
        crate::src20::instruction::spec_unpack(
            spec_src20_transfer_ix(program_id, owner, token_acc, src_acc, dst_acc, amount).data,
        ) == Ok::<_, ProgramError>(AppInstructionView::Transfer { amount }),
{
    vstd::bytes::lemma_auto_spec_u64_to_from_le_bytes();
    let data = spec_src20_transfer_ix(program_id, owner, token_acc, src_acc, dst_acc, amount).data;
    let rest = data.subrange(1, data.len() as int);
    assert(rest =~= vstd::bytes::spec_u64_to_le_bytes(amount));
    assert(rest.subrange(0, 8) =~= rest);
}

/// The ledger-side constructor payload the bridge builds decodes, under the
/// target ledger's own instruction codec, to a mint constructor carrying the
/// first three symbol code points, the supply and the decimals.
pub proof fn lemma_src20_constructor_ix_decodes(
    program_id: Seq<u8>,
    owner: Seq<u8>,
    token_acc: Seq<u8>,
    dst_acc: Seq<u8>,
    symbol: Seq<u32>,
    total_supply: u64,
    decimals: u8,
)
    requires
        symbol.len() >= 3,
        forall|i: int| 0 <= i < 3 ==> vstd::utf8::is_scalar(#[trigger] symbol[i]),
    ensures
        crate::src20::instruction::spec_unpack(
            spec_src20_token_constructor_ix(
                program_id,
                owner,
                token_acc,
                dst_acc,
                symbol,
                total_supply,
                decimals,
            ).data,
        ) == Ok::<_, ProgramError>(
            AppInstructionView::TokenConstructor {
                symbol: seq![symbol[0], symbol[1], symbol[2]],
                total_supply,
                decimals,
            },
        ),
{
    vstd::bytes::lemma_auto_spec_u64_to_from_le_bytes();
    vstd::bytes::lemma_auto_spec_u32_to_from_le_bytes();
    let data = spec_src20_token_constructor_ix(
        program_id,
        owner,
        token_acc,
        dst_acc,
        symbol,
        total_supply,
        decimals,
    ).data;
    let rest = data.subrange(1, data.len() as int);
    assert(rest.len() == 21);
    assert(rest.subrange(0, 4) =~= vstd::bytes::spec_u32_to_le_bytes(symbol[0]));
    assert(rest.subrange(4, 8) =~= vstd::bytes::spec_u32_to_le_bytes(symbol[1]));
    assert(rest.subrange(8, 12) =~= vstd::bytes::spec_u32_to_le_bytes(symbol[2]));
    assert(rest.subrange(12, 20) =~= vstd::bytes::spec_u64_to_le_bytes(total_supply));
    let sym = crate::src20::instruction::spec_payload_symbol(rest);
    assert(sym =~= seq![symbol[0], symbol[1], symbol[2]]);
    assert(crate::src20::instruction::spec_payload_symbol_ok(rest)) by {
        assert(forall|i: int| 0 <= i < 3 ==> vstd::utf8::is_scalar(#[trigger] sym[i]));
    }
    assert(rest[20] == decimals);
}

/// Bridge symmetry, ledger side: a wrap of `amount` and a following unwrap
/// of `amount` through the same descriptor dispatch mirror transfers on this
/// repository's ledger — the same program, the same mint, the same payload
/// (a transfer of `amount`), with the treasury and the owner's account
/// exchanged between source and destination. By the ledger's own
/// transfer-round-trip law, executing the two legs returns both the treasury
/// and the account to their pre-wrap balances; the foreign ledger's two legs
/// are built just as symmetrically but execute outside this library.
pub proof fn lemma_wrap_unwrap_mirror(
    program_id: Seq<u8>,
    s: Seq<SlotView>,
    t: Seq<SlotView>,
    amount: u64,
)
    requires
        spec_wrap(program_id, s, amount) is Ok,
        spec_unwrap(program_id, t, amount) is Ok,
        t.len() >= 11 && s.len() >= 11,
        t[5] == s[5] && t[6] == s[6] && t[7] == s[7],
        t[1].key == s[2].key,
    ensures
        ({
            let wrap_leg = spec_wrap(program_id, s, amount)->Ok_0.1[1].instruction;
            let unwrap_leg = spec_unwrap(program_id, t, amount)->Ok_0.1[0].instruction;
            &&& wrap_leg.program_id == unwrap_leg.program_id
            &&& crate::src20::instruction::spec_unpack(wrap_leg.data) == Ok::<_, ProgramError>(
                AppInstructionView::Transfer { amount },
            )
            &&& crate::src20::instruction::spec_unpack(unwrap_leg.data) == Ok::<_, ProgramError>(
                AppInstructionView::Transfer { amount },
            )
            &&& wrap_leg.accounts[1].pubkey == unwrap_leg.accounts[1].pubkey
            &&& wrap_leg.accounts[2].pubkey == unwrap_leg.accounts[3].pubkey
            &&& wrap_leg.accounts[3].pubkey == unwrap_leg.accounts[2].pubkey
        }),
{
    lemma_src20_transfer_ix_decodes(s[7].key, s[4].key, s[6].key, s[5].key, s[2].key, amount);
    lemma_src20_transfer_ix_decodes(t[7].key, t[0].key, t[6].key, t[1].key, t[5].key, amount);
}

} // verus!
