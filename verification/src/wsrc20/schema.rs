//! Fixed-layout records of the bridge program: the bridge descriptor, the
//! foreign ledger's mint as far as the bridge reads it, and a bare amount
//! record.
use crate::codec::{read_u64_le, spec_bool_byte, write_u64_le};
use crate::program_error::ProgramError;
use crate::pubkey::Pubkey;
use vstd::bytes::{spec_u64_from_le_bytes, spec_u64_to_le_bytes};
use vstd::prelude::*;

verus! {

/// Exact byte length of a packed bridge descriptor: four identity keys and
/// the flag byte.
pub const WRAPPER_LEN: usize = 129;

/// The mathematical value of a bridge descriptor.
#[verifier::ext_equal]
pub struct WrapperView {
    pub src20_treasury: Seq<u8>,
    pub src20_token: Seq<u8>,
    pub spl_treasury: Seq<u8>,
    pub spl_token: Seq<u8>,
    pub initialized: bool,
}

impl WrapperView {
    /// All four identity keys have their full 32 bytes.
    pub open spec fn wf(self) -> bool {
        self.src20_treasury.len() == 32 && self.src20_token.len() == 32 && self.spl_treasury.len()
            == 32 && self.spl_token.len() == 32
    }
}

/// The bridge descriptor: one mint and treasury on each of the two bridged
/// ledgers.
#[derive(Clone, Copy, Debug, PartialEq)]
pub struct Wrapper {
    pub src20_treasury: Pubkey,
    pub src20_token: Pubkey,
    pub spl_treasury: Pubkey,
    pub spl_token: Pubkey,
    pub initialized: bool,
}

impl View for Wrapper {
    type V = WrapperView;

    open spec fn view(&self) -> WrapperView {
        WrapperView {
            src20_treasury: self.src20_treasury@,
            src20_token: self.src20_token@,
            spl_treasury: self.spl_treasury@,
            spl_token: self.spl_token@,
            initialized: self.initialized,
        }
    }
}

/// The packed form of a bridge descriptor.
pub open spec fn spec_pack_wrapper(w: WrapperView) -> Seq<u8> {
    w.src20_treasury + w.src20_token + w.spl_treasury + w.spl_token + seq![
        spec_bool_byte(w.initialized),
    ]
}

/// Strict parse of a bridge descriptor.
pub open spec fn spec_unpack_wrapper(s: Seq<u8>) -> Option<WrapperView> {
    if s.len() == WRAPPER_LEN && (s[128] == 0 || s[128] == 1) {
        Some(
            WrapperView {
                src20_treasury: s.subrange(0, 32),
                src20_token: s.subrange(32, 64),
                spl_treasury: s.subrange(64, 96),
                spl_token: s.subrange(96, 128),
                initialized: s[128] == 1,
            },
        )
    } else {
        None
    }
}

/// Tolerant parse of a bridge descriptor, for the constructor path.
pub open spec fn spec_unpack_wrapper_unchecked(s: Seq<u8>) -> Option<WrapperView> {
    if s.len() == WRAPPER_LEN {
        Some(
            WrapperView {
                src20_treasury: s.subrange(0, 32),
                src20_token: s.subrange(32, 64),
                spl_treasury: s.subrange(64, 96),
                spl_token: s.subrange(96, 128),
                initialized: s[128] == 1,
            },
        )
    } else {
        None
    }
}

impl Wrapper {
    /// Whether the record has been constructed.
    pub fn is_initialized(&self) -> (b: bool)
        ensures
            b == self@.initialized,
    {
        self.initialized
    }

    /// Strict parse from a slot buffer.
    pub fn unpack_from_slice(src: &[u8]) -> (r: Result<Wrapper, ProgramError>)
        ensures
            match r {
                Ok(w) => spec_unpack_wrapper(src@) == Some(w@),
                Err(e) => spec_unpack_wrapper(src@) is None && e
                    == ProgramError::InvalidAccountData,
            },
    {
        if src.len() != WRAPPER_LEN {
            return Err(ProgramError::InvalidAccountData);
        }
        let flag = src[128];
        if flag != 0 && flag != 1 {
            return Err(ProgramError::InvalidAccountData);
        }
        let w = Wrapper {
            src20_treasury: Pubkey::read(src, 0),
            src20_token: Pubkey::read(src, 32),
            spl_treasury: Pubkey::read(src, 64),
            spl_token: Pubkey::read(src, 96),
            initialized: flag == 1,
        };
        proof {
            assert(w@ =~= spec_unpack_wrapper(src@)->Some_0);
        }
        Ok(w)
    }

    /// Tolerant parse from a possibly uninitialized slot buffer.
    pub fn unpack_unchecked(src: &[u8]) -> (r: Result<Wrapper, ProgramError>)
        ensures
            match r {
                Ok(w) => spec_unpack_wrapper_unchecked(src@) == Some(w@),
                Err(e) => spec_unpack_wrapper_unchecked(src@) is None && e
                    == ProgramError::InvalidAccountData,
            },
    {
        if src.len() != WRAPPER_LEN {
            return Err(ProgramError::InvalidAccountData);
        }
        let w = Wrapper {
            src20_treasury: Pubkey::read(src, 0),
            src20_token: Pubkey::read(src, 32),
            spl_treasury: Pubkey::read(src, 64),
            spl_token: Pubkey::read(src, 96),
            initialized: src[128] == 1,
        };
        proof {
            assert(w@ =~= spec_unpack_wrapper_unchecked(src@)->Some_0);
        }
        Ok(w)
    }

    /// The packed form of this record, as a fresh buffer.
    pub fn pack_to_vec(&self) -> (out: Vec<u8>)
        ensures
            out@ == spec_pack_wrapper(self@),
    {
        let mut out: Vec<u8> = Vec::new();
        self.src20_treasury.write(&mut out);
        self.src20_token.write(&mut out);
        self.spl_treasury.write(&mut out);
        self.spl_token.write(&mut out);
        out.push(if self.initialized {
            1
        } else {
            0
        });
        proof {
            assert(out@ =~= spec_pack_wrapper(self@));
        }
        out
    }

    /// Overwrite a correctly sized slot buffer with this record; the codec's
    /// only write path is total on such a buffer.
    pub fn pack_into_slice(&self, dst: &mut Vec<u8>)
        requires
            old(dst)@.len() == WRAPPER_LEN,
        ensures
            final(dst)@ == spec_pack_wrapper(self@),
    {
        *dst = self.pack_to_vec();
    }

    /// Overwrite a correctly sized slot buffer with this record.
    pub fn pack(w: Wrapper, dst: &mut Vec<u8>) -> (r: Result<(), ProgramError>)
        ensures
            match r {
                Ok(_) => old(dst)@.len() == WRAPPER_LEN && final(dst)@ == spec_pack_wrapper(w@),
                Err(e) => old(dst)@.len() != WRAPPER_LEN && final(dst)@ == old(dst)@ && e
                    == ProgramError::InvalidAccountData,
            },
    {
        if dst.len() != WRAPPER_LEN {
            return Err(ProgramError::InvalidAccountData);
        }
        *dst = w.pack_to_vec();
        Ok(())
    }
}

/// Round trip: a well-formed bridge descriptor survives pack then strict
/// unpack unchanged, and its packed form has exactly the fixed length.
pub proof fn lemma_wrapper_round_trip(w: WrapperView)
    requires
        w.wf(),
    ensures
        spec_pack_wrapper(w).len() == WRAPPER_LEN,
        spec_unpack_wrapper(spec_pack_wrapper(w)) == Some(w),
{
    let s = spec_pack_wrapper(w);
    assert(s.subrange(0, 32) =~= w.src20_treasury);
    assert(s.subrange(32, 64) =~= w.src20_token);
    assert(s.subrange(64, 96) =~= w.spl_treasury);
    assert(s.subrange(96, 128) =~= w.spl_token);
    assert(spec_unpack_wrapper(s)->Some_0 =~= w);
}

/// The tolerant parse agrees with the strict one on every packed record:
/// a well-formed bridge descriptor also survives pack then tolerant unpack.
pub proof fn lemma_wrapper_unchecked_round_trip(w: WrapperView)
    requires
        w.wf(),
    ensures
        spec_unpack_wrapper_unchecked(spec_pack_wrapper(w)) == Some(w),
{
    lemma_wrapper_round_trip(w);
}

/// Exact byte length of a packed mint record of the bridged foreign ledger,
/// as far as the bridge reads it: supply, decimals, flag byte.
pub const MINT_LEN: usize = 10;

/// The mathematical value of a foreign-ledger mint record.
#[verifier::ext_equal]
pub struct MintView {
    pub supply: u64,
    pub decimals: u8,
    pub initialized: bool,
}

/// What the bridge reads of the foreign ledger's mint: the circulating
/// supply and decimal precision it copies into the mirrored mint.
#[derive(Clone, Copy, Debug, PartialEq)]
pub struct Mint {
    pub supply: u64,
    pub decimals: u8,
    pub initialized: bool,
}

impl View for Mint {
    type V = MintView;

    open spec fn view(&self) -> MintView {
        MintView { supply: self.supply, decimals: self.decimals, initialized: self.initialized }
    }
}

/// The packed form of a foreign-ledger mint record.
pub open spec fn spec_pack_mint(m: MintView) -> Seq<u8> {
    spec_u64_to_le_bytes(m.supply) + seq![m.decimals, spec_bool_byte(m.initialized)]
}

/// Strict parse of a foreign-ledger mint record.
pub open spec fn spec_unpack_mint(s: Seq<u8>) -> Option<MintView> {
    if s.len() == MINT_LEN && (s[9] == 0 || s[9] == 1) {
        Some(
            MintView {
                supply: spec_u64_from_le_bytes(s.subrange(0, 8)),
                decimals: s[8],
                initialized: s[9] == 1,
            },
        )
    } else {
        None
    }
}

impl Mint {
    /// Whether the record has been constructed.
    pub fn is_initialized(&self) -> (b: bool)
        ensures
            b == self@.initialized,
    {
        self.initialized
    }

    /// Strict parse from a slot buffer.
    pub fn unpack_from_slice(src: &[u8]) -> (r: Result<Mint, ProgramError>)
        ensures
            match r {
                Ok(m) => spec_unpack_mint(src@) == Some(m@),
                Err(e) => spec_unpack_mint(src@) is None && e == ProgramError::InvalidAccountData,
            },
    {
        if src.len() != MINT_LEN {
            return Err(ProgramError::InvalidAccountData);
        }
        let flag = src[9];
        if flag != 0 && flag != 1 {
            return Err(ProgramError::InvalidAccountData);
        }
        let m = Mint { supply: read_u64_le(src, 0), decimals: src[8], initialized: flag == 1 };
        proof {
            assert(m@ =~= spec_unpack_mint(src@)->Some_0);
        }
        Ok(m)
    }

    /// The packed form of this record, as a fresh buffer.
    pub fn pack_to_vec(&self) -> (out: Vec<u8>)
        ensures
            out@ == spec_pack_mint(self@),
    {
        let mut out: Vec<u8> = Vec::new();
        write_u64_le(&mut out, self.supply);
        out.push(self.decimals);
        out.push(if self.initialized {
            1
        } else {
            0
        });
        proof {
            assert(out@ =~= spec_pack_mint(self@));
        }
        out
    }

    /// Overwrite a correctly sized slot buffer with this record; the codec's
    /// only write path is total on such a buffer.
    pub fn pack_into_slice(&self, dst: &mut Vec<u8>)
        requires
            old(dst)@.len() == MINT_LEN,
        ensures
            final(dst)@ == spec_pack_mint(self@),
    {
        *dst = self.pack_to_vec();
    }
}

/// Round trip: every foreign-ledger mint record survives pack then unpack
/// unchanged, and its packed form has exactly the fixed length.
pub proof fn lemma_mint_round_trip(m: MintView)
    ensures
        spec_pack_mint(m).len() == MINT_LEN,
        spec_unpack_mint(spec_pack_mint(m)) == Some(m),
{
    vstd::bytes::lemma_auto_spec_u64_to_from_le_bytes();
    let s = spec_pack_mint(m);
    assert(s.subrange(0, 8) =~= spec_u64_to_le_bytes(m.supply));
    assert(spec_unpack_mint(s)->Some_0 =~= m);
}

/// Exact byte length of a packed bare-amount record.
pub const DUMMY_LEN: usize = 8;

/// The mathematical value of a bare-amount record.
#[verifier::ext_equal]
pub struct DummyView {
    pub amount: u64,
}

/// A bare amount, the smallest record the bridge's schema knows.
#[derive(Clone, Copy, Debug, Default, PartialEq)]
pub struct Dummy {
    pub amount: u64,
}

impl View for Dummy {
    type V = DummyView;

    open spec fn view(&self) -> DummyView {
        DummyView { amount: self.amount }
    }
}

/// The packed form of a bare-amount record.
pub open spec fn spec_pack_dummy(d: DummyView) -> Seq<u8> {
    spec_u64_to_le_bytes(d.amount)
}

/// Strict parse of a bare-amount record.
pub open spec fn spec_unpack_dummy(s: Seq<u8>) -> Option<DummyView> {
    if s.len() == DUMMY_LEN {
        Some(DummyView { amount: spec_u64_from_le_bytes(s) })
    } else {
        None
    }
}

impl Dummy {
    /// Whether the record is usable; records of this type always are.
    pub fn is_initialized(&self) -> (b: bool)
        ensures
            b,
    {
        true
    }

    /// Strict parse from a slot buffer.
    pub fn unpack_from_slice(src: &[u8]) -> (r: Result<Dummy, ProgramError>)
        ensures
            match r {
                Ok(d) => spec_unpack_dummy(src@) == Some(d@),
                Err(e) => spec_unpack_dummy(src@) is None && e == ProgramError::InvalidAccountData,
            },
    {
        if src.len() != DUMMY_LEN {
            return Err(ProgramError::InvalidAccountData);
        }
        let d = Dummy { amount: read_u64_le(src, 0) };
        proof {
            assert(src@.subrange(0, 8) =~= src@);
        }
        Ok(d)
    }

    /// The packed form of this record, as a fresh buffer.
    pub fn pack_to_vec(&self) -> (out: Vec<u8>)
        ensures
            out@ == spec_pack_dummy(self@),
    {
        let mut out: Vec<u8> = Vec::new();
        write_u64_le(&mut out, self.amount);
        proof {
            assert(out@ =~= spec_pack_dummy(self@));
        }
        out
    }

    /// Overwrite a correctly sized slot buffer with this record; the codec's
    /// only write path is total on such a buffer.
    pub fn pack_into_slice(&self, dst: &mut Vec<u8>)
        requires
            old(dst)@.len() == DUMMY_LEN,
        ensures
            final(dst)@ == spec_pack_dummy(self@),
    {
        *dst = self.pack_to_vec();
    }
}

/// Round trip: every bare-amount record survives pack then unpack unchanged,
/// and its packed form has exactly the fixed length.
pub proof fn lemma_dummy_round_trip(d: DummyView)
    ensures
        spec_pack_dummy(d).len() == DUMMY_LEN,
        spec_unpack_dummy(spec_pack_dummy(d)) == Some(d),
{
    vstd::bytes::lemma_auto_spec_u64_to_from_le_bytes();
    assert(spec_unpack_dummy(spec_pack_dummy(d))->Some_0 =~= d);
}

} // verus!
