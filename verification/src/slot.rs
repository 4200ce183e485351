//! The host's account slots, as the ledger programs see them.
use crate::pubkey::Pubkey;
use vstd::prelude::*;

verus! {

/// One host-managed account slot: an identity key, the identity of the
/// program that owns the slot's storage, the host-attested signer flag, the
/// slot's storage-deposit balance, and its mutable byte buffer.
#[derive(Clone, Debug)]
pub struct Slot {
    pub key: Pubkey,
    pub owner: Pubkey,
    pub is_signer: bool,
    pub lamports: u64,
    pub data: Vec<u8>,
}

/// The mathematical value of a slot.
#[verifier::ext_equal]
pub struct SlotView {
    pub key: Seq<u8>,
    pub owner: Seq<u8>,
    pub is_signer: bool,
    pub lamports: u64,
    pub data: Seq<u8>,
}

impl View for Slot {
    type V = SlotView;

    open spec fn view(&self) -> SlotView {
        SlotView {
            key: self.key@,
            owner: self.owner@,
            is_signer: self.is_signer,
            lamports: self.lamports,
            data: self.data@,
        }
    }
}

impl SlotView {
    /// Both identity keys of the slot have their full 32 bytes, as every
    /// host-supplied slot does.
    pub open spec fn wf(self) -> bool {
        self.key.len() == 32 && self.owner.len() == 32
    }

    /// The same slot with its buffer replaced.
    pub open spec fn with_data(self, data: Seq<u8>) -> SlotView {
        SlotView { data, ..self }
    }

    /// The same slot with its storage-deposit balance replaced.
    pub open spec fn with_lamports(self, lamports: u64) -> SlotView {
        SlotView { lamports, ..self }
    }
}

/// Every slot in the list is well-formed.
pub open spec fn wf_slots(s: Seq<SlotView>) -> bool {
    forall|i: int| 0 <= i < s.len() ==> (#[trigger] s[i]).wf()
}

/// The mathematical values of a list of slots.
pub open spec fn slot_views(s: Seq<Slot>) -> Seq<SlotView> {
    s.map_values(|x: Slot| x@)
}

/// Replace one slot's byte buffer, keeping its metadata.
pub fn store_data(accounts: &mut Vec<Slot>, i: usize, data: Vec<u8>)
    requires
        i < old(accounts)@.len(),
    ensures
        slot_views(final(accounts)@) == slot_views(old(accounts)@).update(
            i as int,
            slot_views(old(accounts)@)[i as int].with_data(data@),
        ),
        final(accounts)@.len() == old(accounts)@.len(),
{
    let slot = Slot {
        key: accounts[i].key,
        owner: accounts[i].owner,
        is_signer: accounts[i].is_signer,
        lamports: accounts[i].lamports,
        data,
    };
    accounts.set(i, slot);
    proof {
        assert(slot_views(accounts@) =~= slot_views(old(accounts)@).update(
            i as int,
            slot_views(old(accounts)@)[i as int].with_data(slot.data@),
        ));
    }
}

/// Replace one slot's storage-deposit balance, keeping everything else.
pub fn store_lamports(accounts: &mut Vec<Slot>, i: usize, lamports: u64)
    requires
        i < old(accounts)@.len(),
    ensures
        slot_views(final(accounts)@) == slot_views(old(accounts)@).update(
            i as int,
            slot_views(old(accounts)@)[i as int].with_lamports(lamports),
        ),
        final(accounts)@.len() == old(accounts)@.len(),
{
    let mut data = Vec::new();
    let old_data = &accounts[i].data;
    let n = old_data.len();
    let mut j: usize = 0;
    while j < n
        invariant
            j <= n == old_data@.len(),
            data@ == old_data@.subrange(0, j as int),
        decreases n - j,
    {
        data.push(old_data[j]);
        proof {
            assert(old_data@.subrange(0, j as int + 1) =~= old_data@.subrange(
                0,
                j as int,
            ).push(old_data@[j as int]));
        }
        j += 1;
    }
    proof {
        assert(data@ =~= accounts@[i as int].data@);
    }
    let slot = Slot {
        key: accounts[i].key,
        owner: accounts[i].owner,
        is_signer: accounts[i].is_signer,
        lamports,
        data,
    };
    accounts.set(i, slot);
    proof {
        assert(slot_views(accounts@) =~= slot_views(old(accounts)@).update(
            i as int,
            slot_views(old(accounts)@)[i as int].with_lamports(lamports),
        ));
    }
}

} // verus!
