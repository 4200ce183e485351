//! Fixed-layout records of the token ledger: Token (the mint), Account (a
//! balance account) and Delegation (a spending allowance).
use crate::codec::{read_u32_le, read_u64_le, spec_bool_byte, write_u32_le, write_u64_le};
use crate::program_error::ProgramError;
use crate::pubkey::Pubkey;
use vstd::bytes::{spec_u32_from_le_bytes, spec_u32_to_le_bytes, spec_u64_from_le_bytes,
    spec_u64_to_le_bytes};
use vstd::prelude::*;

verus! {

broadcast use vstd::utf8::char_is_scalar;

/// Exact byte length of a packed balance-account record:
/// owner key, mint key, little-endian amount, flag byte.
pub const ACCOUNT_LEN: usize = 73;

/// The mathematical value of a balance-account record.
#[verifier::ext_equal]
pub struct AccountView {
    pub owner: Seq<u8>,
    pub token: Seq<u8>,
    pub amount: u64,
    pub initialized: bool,
}

impl AccountView {
    /// Both identity keys have their full 32 bytes.
    pub open spec fn wf(self) -> bool {
        self.owner.len() == 32 && self.token.len() == 32
    }
}

/// A balance account: how much of one mint one owner holds.
#[derive(Clone, Copy, Debug, PartialEq)]
pub struct Account {
    pub owner: Pubkey,
    pub token: Pubkey,
    pub amount: u64,
    pub initialized: bool,
}

impl View for Account {
    type V = AccountView;

    open spec fn view(&self) -> AccountView {
        AccountView {
            owner: self.owner@,
            token: self.token@,
            amount: self.amount,
            initialized: self.initialized,
        }
    }
}

/// The packed form of a balance-account record.
pub open spec fn spec_pack_account(a: AccountView) -> Seq<u8> {
    a.owner + a.token + spec_u64_to_le_bytes(a.amount) + seq![spec_bool_byte(a.initialized)]
}

/// Strict parse of a balance-account record: the buffer must have exactly the
/// fixed length and the flag byte must be 0 or 1.
pub open spec fn spec_unpack_account(d: Seq<u8>) -> Option<AccountView> {
    if d.len() == ACCOUNT_LEN && (d[72] == 0 || d[72] == 1) {
        Some(
            AccountView {
                owner: d.subrange(0, 32),
                token: d.subrange(32, 64),
                amount: spec_u64_from_le_bytes(d.subrange(64, 72)),
                initialized: d[72] == 1,
            },
        )
    } else {
        None
    }
}

/// Tolerant parse for constructor paths: a freshly allocated slot may hold a
/// garbage flag byte, and anything but 1 reads as "not yet constructed".
pub open spec fn spec_unpack_account_unchecked(d: Seq<u8>) -> Option<AccountView> {
    if d.len() == ACCOUNT_LEN {
        Some(
            AccountView {
                owner: d.subrange(0, 32),
                token: d.subrange(32, 64),
                amount: spec_u64_from_le_bytes(d.subrange(64, 72)),
                initialized: d[72] == 1,
            },
        )
    } else {
        None
    }
}

impl Account {
    /// Whether the record has been constructed.
    pub fn is_initialized(&self) -> (b: bool)
        ensures
            b == self@.initialized,
    {
        self.initialized
    }

    /// Strict parse from a slot buffer.
    pub fn unpack_from_slice(src: &[u8]) -> (r: Result<Account, ProgramError>)
        ensures
            match r {
                Ok(a) => spec_unpack_account(src@) == Some(a@),
                Err(e) => spec_unpack_account(src@) is None && e
                    == ProgramError::InvalidAccountData,
            },
    {
        if src.len() != ACCOUNT_LEN {
            return Err(ProgramError::InvalidAccountData);
        }
        let flag = src[72];
        if flag != 0 && flag != 1 {
            return Err(ProgramError::InvalidAccountData);
        }
        let a = Account {
            owner: Pubkey::read(src, 0),
            token: Pubkey::read(src, 32),
            amount: read_u64_le(src, 64),
            initialized: flag == 1,
        };
        proof {
            assert(a@ =~= spec_unpack_account(src@)->Some_0);
        }
        Ok(a)
    }

    /// Tolerant parse from a possibly uninitialized slot buffer.
    pub fn unpack_unchecked(src: &[u8]) -> (r: Result<Account, ProgramError>)
        ensures
            match r {
                Ok(a) => spec_unpack_account_unchecked(src@) == Some(a@),
                Err(e) => spec_unpack_account_unchecked(src@) is None && e
                    == ProgramError::InvalidAccountData,
            },
    {
        if src.len() != ACCOUNT_LEN {
            return Err(ProgramError::InvalidAccountData);
        }
        let a = Account {
            owner: Pubkey::read(src, 0),
            token: Pubkey::read(src, 32),
            amount: read_u64_le(src, 64),
            initialized: src[72] == 1,
        };
        proof {
            assert(a@ =~= spec_unpack_account_unchecked(src@)->Some_0);
        }
        Ok(a)
    }

    /// The packed form of this record, as a fresh buffer.
    pub fn pack_to_vec(&self) -> (out: Vec<u8>)
        ensures
            out@ == spec_pack_account(self@),
    {
        let mut out: Vec<u8> = Vec::new();
        self.owner.write(&mut out);
        self.token.write(&mut out);
        write_u64_le(&mut out, self.amount);
        out.push(if self.initialized {
            1
        } else {
            0
        });
        proof {
            assert(out@ =~= spec_pack_account(self@));
        }
        out
    }

    /// Overwrite a correctly sized slot buffer with this record; the codec's
    /// only write path is total on such a buffer.
    pub fn pack_into_slice(&self, dst: &mut Vec<u8>)
        requires
            old(dst)@.len() == ACCOUNT_LEN,
        ensures
            final(dst)@ == spec_pack_account(self@),
    {
        *dst = self.pack_to_vec();
    }

    /// Overwrite a correctly sized slot buffer with this record.
    pub fn pack(a: Account, dst: &mut Vec<u8>) -> (r: Result<(), ProgramError>)
        ensures
            match r {
                Ok(_) => old(dst)@.len() == ACCOUNT_LEN && final(dst)@ == spec_pack_account(a@),
                Err(e) => old(dst)@.len() != ACCOUNT_LEN && final(dst)@ == old(dst)@ && e
                    == ProgramError::InvalidAccountData,
            },
    {
        if dst.len() != ACCOUNT_LEN {
            return Err(ProgramError::InvalidAccountData);
        }
        *dst = a.pack_to_vec();
        Ok(())
    }
}

/// The tolerant parse agrees with the strict one on every packed record:
/// a well-formed balance-account record also survives pack then tolerant
/// unpack.
pub proof fn lemma_account_unchecked_round_trip(a: AccountView)
    requires
        a.wf(),
    ensures
        spec_unpack_account_unchecked(spec_pack_account(a)) == Some(a),
{
    lemma_account_round_trip(a);
}

/// Exact byte length of a packed delegation record: owner, mint, source and
/// delegate keys, little-endian remaining allowance, flag byte.
pub const DELEGATION_LEN: usize = 137;

/// The mathematical value of a delegation record.
#[verifier::ext_equal]
pub struct DelegationView {
    pub owner: Seq<u8>,
    pub token: Seq<u8>,
    pub source: Seq<u8>,
    pub delegate: Seq<u8>,
    pub amount: u64,
    pub initialized: bool,
}

impl DelegationView {
    /// All four identity keys have their full 32 bytes.
    pub open spec fn wf(self) -> bool {
        self.owner.len() == 32 && self.token.len() == 32 && self.source.len() == 32
            && self.delegate.len() == 32
    }
}

/// A delegation: a capped allowance the owner of a balance account grants a
/// delegate over that account.
#[derive(Clone, Copy, Debug, PartialEq)]
pub struct Delegation {
    pub owner: Pubkey,
    pub token: Pubkey,
    pub source: Pubkey,
    pub delegate: Pubkey,
    pub amount: u64,
    pub initialized: bool,
}

impl View for Delegation {
    type V = DelegationView;

    open spec fn view(&self) -> DelegationView {
        DelegationView {
            owner: self.owner@,
            token: self.token@,
            source: self.source@,
            delegate: self.delegate@,
            amount: self.amount,
            initialized: self.initialized,
        }
    }
}

/// The packed form of a delegation record.
pub open spec fn spec_pack_delegation(d: DelegationView) -> Seq<u8> {
    d.owner + d.token + d.source + d.delegate + spec_u64_to_le_bytes(d.amount) + seq![
        spec_bool_byte(d.initialized),
    ]
}

/// Strict parse of a delegation record.
pub open spec fn spec_unpack_delegation(s: Seq<u8>) -> Option<DelegationView> {
    if s.len() == DELEGATION_LEN && (s[136] == 0 || s[136] == 1) {
        Some(
            DelegationView {
                owner: s.subrange(0, 32),
                token: s.subrange(32, 64),
                source: s.subrange(64, 96),
                delegate: s.subrange(96, 128),
                amount: spec_u64_from_le_bytes(s.subrange(128, 136)),
                initialized: s[136] == 1,
            },
        )
    } else {
        None
    }
}

/// Tolerant parse of a delegation record, for constructor paths.
pub open spec fn spec_unpack_delegation_unchecked(s: Seq<u8>) -> Option<DelegationView> {
    if s.len() == DELEGATION_LEN {
        Some(
            DelegationView {
                owner: s.subrange(0, 32),
                token: s.subrange(32, 64),
                source: s.subrange(64, 96),
                delegate: s.subrange(96, 128),
                amount: spec_u64_from_le_bytes(s.subrange(128, 136)),
                initialized: s[136] == 1,
            },
        )
    } else {
        None
    }
}

impl Delegation {
    /// Whether the record has been constructed.
    pub fn is_initialized(&self) -> (b: bool)
        ensures
            b == self@.initialized,
    {
        self.initialized
    }

    /// Strict parse from a slot buffer.
    pub fn unpack_from_slice(src: &[u8]) -> (r: Result<Delegation, ProgramError>)
        ensures
            match r {
                Ok(d) => spec_unpack_delegation(src@) == Some(d@),
                Err(e) => spec_unpack_delegation(src@) is None && e
                    == ProgramError::InvalidAccountData,
            },
    {
        if src.len() != DELEGATION_LEN {
            return Err(ProgramError::InvalidAccountData);
        }
        let flag = src[136];
        if flag != 0 && flag != 1 {
            return Err(ProgramError::InvalidAccountData);
        }
        let d = Delegation {
            owner: Pubkey::read(src, 0),
            token: Pubkey::read(src, 32),
            source: Pubkey::read(src, 64),
            delegate: Pubkey::read(src, 96),
            amount: read_u64_le(src, 128),
            initialized: flag == 1,
        };
        proof {
            assert(d@ =~= spec_unpack_delegation(src@)->Some_0);
        }
        Ok(d)
    }

    /// Tolerant parse from a possibly uninitialized slot buffer.
    pub fn unpack_unchecked(src: &[u8]) -> (r: Result<Delegation, ProgramError>)
        ensures
            match r {
                Ok(d) => spec_unpack_delegation_unchecked(src@) == Some(d@),
                Err(e) => spec_unpack_delegation_unchecked(src@) is None && e
                    == ProgramError::InvalidAccountData,
            },
    {
        if src.len() != DELEGATION_LEN {
            return Err(ProgramError::InvalidAccountData);
        }
        let d = Delegation {
            owner: Pubkey::read(src, 0),
            token: Pubkey::read(src, 32),
            source: Pubkey::read(src, 64),
            delegate: Pubkey::read(src, 96),
            amount: read_u64_le(src, 128),
            initialized: src[136] == 1,
        };
        proof {
            assert(d@ =~= spec_unpack_delegation_unchecked(src@)->Some_0);
        }
        Ok(d)
    }

    /// The packed form of this record, as a fresh buffer.
    pub fn pack_to_vec(&self) -> (out: Vec<u8>)
        ensures
            out@ == spec_pack_delegation(self@),
    {
        let mut out: Vec<u8> = Vec::new();
        self.owner.write(&mut out);
        self.token.write(&mut out);
        self.source.write(&mut out);
        self.delegate.write(&mut out);
        write_u64_le(&mut out, self.amount);
        out.push(if self.initialized {
            1
        } else {
            0
        });
        proof {
            assert(out@ =~= spec_pack_delegation(self@));
        }
        out
    }

    /// Overwrite a correctly sized slot buffer with this record; the codec's
    /// only write path is total on such a buffer.
    pub fn pack_into_slice(&self, dst: &mut Vec<u8>)
        requires
            old(dst)@.len() == DELEGATION_LEN,
        ensures
            final(dst)@ == spec_pack_delegation(self@),
    {
        *dst = self.pack_to_vec();
    }

    /// Overwrite a correctly sized slot buffer with this record.
    pub fn pack(d: Delegation, dst: &mut Vec<u8>) -> (r: Result<(), ProgramError>)
        ensures
            match r {
                Ok(_) => old(dst)@.len() == DELEGATION_LEN && final(dst)@ == spec_pack_delegation(
                    d@,
                ),
                Err(e) => old(dst)@.len() != DELEGATION_LEN && final(dst)@ == old(dst)@ && e
                    == ProgramError::InvalidAccountData,
            },
    {
        if dst.len() != DELEGATION_LEN {
            return Err(ProgramError::InvalidAccountData);
        }
        *dst = d.pack_to_vec();
        Ok(())
    }
}

/// Round trip: a well-formed delegation record survives pack then strict
/// unpack unchanged, and its packed form has exactly the fixed length.
pub proof fn lemma_delegation_round_trip(d: DelegationView)
    requires
        d.wf(),
    ensures
        spec_pack_delegation(d).len() == DELEGATION_LEN,
        spec_unpack_delegation(spec_pack_delegation(d)) == Some(d),
{
    vstd::bytes::lemma_auto_spec_u64_to_from_le_bytes();
    let s = spec_pack_delegation(d);
    assert(s.subrange(0, 32) =~= d.owner);
    assert(s.subrange(32, 64) =~= d.token);
    assert(s.subrange(64, 96) =~= d.source);
    assert(s.subrange(96, 128) =~= d.delegate);
    assert(s.subrange(128, 136) =~= spec_u64_to_le_bytes(d.amount));
    assert(spec_unpack_delegation(s)->Some_0 =~= d);
}

/// The tolerant parse agrees with the strict one on every packed record:
/// a well-formed delegation record also survives pack then tolerant unpack.
pub proof fn lemma_delegation_unchecked_round_trip(d: DelegationView)
    requires
        d.wf(),
    ensures
        spec_unpack_delegation_unchecked(spec_pack_delegation(d)) == Some(d),
{
    lemma_delegation_round_trip(d);
}

/// Exact byte length of a packed mint record: three 4-byte symbol code
/// points, little-endian total supply, decimals, flag byte.
pub const TOKEN_LEN: usize = 22;

/// The mathematical value of a mint record; the symbol is its three Unicode
/// code points.
#[verifier::ext_equal]
pub struct TokenView {
    pub symbol: Seq<u32>,
    pub total_supply: u64,
    pub decimals: u8,
    pub initialized: bool,
}

impl TokenView {
    /// The symbol has exactly three code points, all Unicode scalar values.
    pub open spec fn wf(self) -> bool {
        self.symbol.len() == 3 && (forall|i: int|
            0 <= i < 3 ==> vstd::utf8::is_scalar(#[trigger] self.symbol[i]))
    }
}

/// The mint record of the ledger: a symbol, the total supply, the decimal
/// precision and the construct-once flag.
#[derive(Clone, Copy, Debug, PartialEq)]
pub struct Token {
    pub symbol: [char; 3],
    pub total_supply: u64,
    pub decimals: u8,
    pub initialized: bool,
}

impl View for Token {
    type V = TokenView;

    open spec fn view(&self) -> TokenView {
        TokenView {
            symbol: seq![
                self.symbol@[0] as u32,
                self.symbol@[1] as u32,
                self.symbol@[2] as u32,
            ],
            total_supply: self.total_supply,
            decimals: self.decimals,
            initialized: self.initialized,
        }
    }
}

/// The packed form of a mint record. Each symbol code point is stored as a
/// full 4-byte little-endian value, so short encodings are zero-padded and
/// the layout round-trips.
pub open spec fn spec_pack_token(t: TokenView) -> Seq<u8> {
    spec_u32_to_le_bytes(t.symbol[0]) + spec_u32_to_le_bytes(t.symbol[1]) + spec_u32_to_le_bytes(
        t.symbol[2],
    ) + spec_u64_to_le_bytes(t.total_supply) + seq![t.decimals, spec_bool_byte(t.initialized)]
}

/// The three symbol code points stored in a mint buffer.
pub open spec fn spec_token_symbol(s: Seq<u8>) -> Seq<u32> {
    seq![
        spec_u32_from_le_bytes(s.subrange(0, 4)),
        spec_u32_from_le_bytes(s.subrange(4, 8)),
        spec_u32_from_le_bytes(s.subrange(8, 12)),
    ]
}

/// Whether every stored symbol code point is a Unicode scalar value.
pub open spec fn spec_token_symbol_ok(s: Seq<u8>) -> bool {
    forall|i: int| 0 <= i < 3 ==> vstd::utf8::is_scalar(#[trigger] spec_token_symbol(s)[i])
}

/// Strict parse of a mint record: exact length, scalar symbol code points,
/// flag byte 0 or 1.
pub open spec fn spec_unpack_token(s: Seq<u8>) -> Option<TokenView> {
    if s.len() == TOKEN_LEN && spec_token_symbol_ok(s) && (s[21] == 0 || s[21] == 1) {
        Some(
            TokenView {
                symbol: spec_token_symbol(s),
                total_supply: spec_u64_from_le_bytes(s.subrange(12, 20)),
                decimals: s[20],
                initialized: s[21] == 1,
            },
        )
    } else {
        None
    }
}

/// Tolerant parse of a mint record, for constructor paths: the flag byte may
/// be garbage, but the symbol must still decode.
pub open spec fn spec_unpack_token_unchecked(s: Seq<u8>) -> Option<TokenView> {
    if s.len() == TOKEN_LEN && spec_token_symbol_ok(s) {
        Some(
            TokenView {
                symbol: spec_token_symbol(s),
                total_supply: spec_u64_from_le_bytes(s.subrange(12, 20)),
                decimals: s[20],
                initialized: s[21] == 1,
            },
        )
    } else {
        None
    }
}

impl Token {
    /// Whether the record has been constructed.
    pub fn is_initialized(&self) -> (b: bool)
        ensures
            b == self@.initialized,
    {
        self.initialized
    }

    /// Strict parse from a slot buffer.
    pub fn unpack_from_slice(src: &[u8]) -> (r: Result<Token, ProgramError>)
        ensures
            match r {
                Ok(t) => spec_unpack_token(src@) == Some(t@),
                Err(e) => spec_unpack_token(src@) is None && e == ProgramError::InvalidAccountData,
            },
    {
        if src.len() != TOKEN_LEN {
            return Err(ProgramError::InvalidAccountData);
        }
        let flag = src[21];
        if flag != 0 && flag != 1 {
            return Err(ProgramError::InvalidAccountData);
        }
        match Self::read_symbol(src) {
            Some(symbol) => {
                let t = Token {
                    symbol,
                    total_supply: read_u64_le(src, 12),
                    decimals: src[20],
                    initialized: flag == 1,
                };
                proof {
                    assert(t@ =~= spec_unpack_token(src@)->Some_0);
                }
                Ok(t)
            },
            None => Err(ProgramError::InvalidAccountData),
        }
    }

    /// Tolerant parse from a possibly uninitialized slot buffer.
    pub fn unpack_unchecked(src: &[u8]) -> (r: Result<Token, ProgramError>)
        ensures
            match r {
                Ok(t) => spec_unpack_token_unchecked(src@) == Some(t@),
                Err(e) => spec_unpack_token_unchecked(src@) is None && e
                    == ProgramError::InvalidAccountData,
            },
    {
        if src.len() != TOKEN_LEN {
            return Err(ProgramError::InvalidAccountData);
        }
        match Self::read_symbol(src) {
            Some(symbol) => {
                let t = Token {
                    symbol,
                    total_supply: read_u64_le(src, 12),
                    decimals: src[20],
                    initialized: src[21] == 1,
                };
                proof {
                    assert(t@ =~= spec_unpack_token_unchecked(src@)->Some_0);
                }
                Ok(t)
            },
            None => Err(ProgramError::InvalidAccountData),
        }
    }

    /// Decode the three symbol code points at the head of a mint buffer.
    fn read_symbol(src: &[u8]) -> (r: Option<[char; 3]>)
        requires
            12 <= src@.len(),
        ensures
            match r {
                Some(sym) => spec_token_symbol_ok(src@) && seq![
                    sym@[0] as u32,
                    sym@[1] as u32,
                    sym@[2] as u32,
                ] == spec_token_symbol(src@),
                None => !spec_token_symbol_ok(src@),
            },
    {
        let x0 = read_u32_le(src, 0);
        let x1 = read_u32_le(src, 4);
        let x2 = read_u32_le(src, 8);
        let c0 = char::from_u32(x0);
        let c1 = char::from_u32(x1);
        let c2 = char::from_u32(x2);
        proof {
            assert(spec_token_symbol(src@) =~= seq![x0, x1, x2]);
        }
        match (c0, c1, c2) {
            (Some(a), Some(b), Some(c)) => {
                let mut sym: [char; 3] = [a; 3];
                sym[1] = b;
                sym[2] = c;
                proof {
                    assert(sym@[0] == a && sym@[1] == b && sym@[2] == c);
                    assert(spec_token_symbol_ok(src@)) by {
                        let sv = spec_token_symbol(src@);
                        assert(sv[0] == x0 && sv[1] == x1 && sv[2] == x2);
                        assert(forall|i: int|
                            0 <= i < 3 ==> vstd::utf8::is_scalar(#[trigger] sv[i]));
                    }
                    assert(seq![sym@[0] as u32, sym@[1] as u32, sym@[2] as u32] =~= spec_token_symbol(
                        src@,
                    ));
                }
                Some(sym)
            },
            _ => None,
        }
    }

    /// The packed form of this record, as a fresh buffer.
    pub fn pack_to_vec(&self) -> (out: Vec<u8>)
        ensures
            out@ == spec_pack_token(self@),
    {
        let mut out: Vec<u8> = Vec::new();
        write_u32_le(&mut out, self.symbol[0] as u32);
        write_u32_le(&mut out, self.symbol[1] as u32);
        write_u32_le(&mut out, self.symbol[2] as u32);
        write_u64_le(&mut out, self.total_supply);
        out.push(self.decimals);
        out.push(if self.initialized {
            1
        } else {
            0
        });
        proof {
            assert(out@ =~= spec_pack_token(self@));
        }
        out
    }

    /// Overwrite a correctly sized slot buffer with this record; the codec's
    /// only write path is total on such a buffer.
    pub fn pack_into_slice(&self, dst: &mut Vec<u8>)
        requires
            old(dst)@.len() == TOKEN_LEN,
        ensures
            final(dst)@ == spec_pack_token(self@),
    {
        *dst = self.pack_to_vec();
    }

    /// Overwrite a correctly sized slot buffer with this record.
    pub fn pack(t: Token, dst: &mut Vec<u8>) -> (r: Result<(), ProgramError>)
        ensures
            match r {
                Ok(_) => old(dst)@.len() == TOKEN_LEN && final(dst)@ == spec_pack_token(t@),
                Err(e) => old(dst)@.len() != TOKEN_LEN && final(dst)@ == old(dst)@ && e
                    == ProgramError::InvalidAccountData,
            },
    {
        if dst.len() != TOKEN_LEN {
            return Err(ProgramError::InvalidAccountData);
        }
        *dst = t.pack_to_vec();
        Ok(())
    }
}

/// Round trip: a well-formed mint record survives pack then strict unpack
/// unchanged, and its packed form has exactly the fixed length.
pub proof fn lemma_token_round_trip(t: TokenView)
    requires
        t.wf(),
    ensures
        spec_pack_token(t).len() == TOKEN_LEN,
        spec_unpack_token(spec_pack_token(t)) == Some(t),
{
    vstd::bytes::lemma_auto_spec_u64_to_from_le_bytes();
    vstd::bytes::lemma_auto_spec_u32_to_from_le_bytes();
    let s = spec_pack_token(t);
    assert(s.subrange(0, 4) =~= spec_u32_to_le_bytes(t.symbol[0]));
    assert(s.subrange(4, 8) =~= spec_u32_to_le_bytes(t.symbol[1]));
    assert(s.subrange(8, 12) =~= spec_u32_to_le_bytes(t.symbol[2]));
    assert(s.subrange(12, 20) =~= spec_u64_to_le_bytes(t.total_supply));
    assert(spec_token_symbol(s) =~= t.symbol);
    assert(spec_unpack_token(s)->Some_0 =~= t);
}

/// The tolerant parse agrees with the strict one on every packed record:
/// a well-formed mint record also survives pack then tolerant unpack.
pub proof fn lemma_token_unchecked_round_trip(t: TokenView)
    requires
        t.wf(),
    ensures
        spec_unpack_token_unchecked(spec_pack_token(t)) == Some(t),
{
    lemma_token_round_trip(t);
}

/// Round trip: a well-formed balance-account record survives pack then strict
/// unpack unchanged, and its packed form has exactly the fixed length.
pub proof fn lemma_account_round_trip(a: AccountView)
    requires
        a.wf(),
    ensures
        spec_pack_account(a).len() == ACCOUNT_LEN,
        spec_unpack_account(spec_pack_account(a)) == Some(a),
{
    vstd::bytes::lemma_auto_spec_u64_to_from_le_bytes();
    let d = spec_pack_account(a);
    assert(d.subrange(0, 32) =~= a.owner);
    assert(d.subrange(32, 64) =~= a.token);
    assert(d.subrange(64, 72) =~= spec_u64_to_le_bytes(a.amount));
    assert(spec_unpack_account(d)->Some_0 =~= a);
}

} // verus!
