//! Record and instruction codec behaviour on concrete values.
use src20_ledger::hello::schema::Hello;
use src20_ledger::program_error::ProgramError;
use src20_ledger::pubkey::Pubkey;
use src20_ledger::src20::instruction::AppInstruction;
use src20_ledger::src20::schema::{Account, Delegation, Token};
use src20_ledger::wsrc20::schema::{Dummy, Mint, Wrapper};

fn key(b: u8) -> Pubkey {
    Pubkey { bytes: [b; 32] }
}

#[test]
fn account_round_trip() {
    let a = Account { owner: key(1), token: key(2), amount: 77_000_000_001, initialized: true };
    let bytes = a.pack_to_vec();
    assert_eq!(bytes.len(), 73);
    assert_eq!(&bytes[0..32], &[1u8; 32]);
    assert_eq!(&bytes[32..64], &[2u8; 32]);
    assert_eq!(bytes[72], 1);
    let back = Account::unpack_from_slice(&bytes).unwrap();
    assert_eq!(back, a);
}

#[test]
fn account_rejects_bad_length_and_flag() {
    assert_eq!(
        Account::unpack_from_slice(&[0u8; 72]),
        Err(ProgramError::InvalidAccountData)
    );
    let mut bytes = vec![0u8; 73];
    bytes[72] = 9;
    assert_eq!(
        Account::unpack_from_slice(&bytes),
        Err(ProgramError::InvalidAccountData)
    );
    // The tolerant parse accepts the garbage flag and reads it as
    // "not yet constructed".
    let loose = Account::unpack_unchecked(&bytes).unwrap();
    assert!(!loose.initialized);
}

#[test]
fn delegation_round_trip() {
    let d = Delegation {
        owner: key(3),
        token: key(4),
        source: key(5),
        delegate: key(6),
        amount: u64::MAX,
        initialized: false,
    };
    let bytes = d.pack_to_vec();
    assert_eq!(bytes.len(), 137);
    assert_eq!(bytes[136], 0);
    assert_eq!(Delegation::unpack_from_slice(&bytes).unwrap(), d);
}

#[test]
fn token_round_trip_zero_pads_short_symbols() {
    // 'A' encodes to a single byte in UTF-8; the fixed-width codec must
    // still give it a full zero-padded 4-byte cell so the record
    // round-trips.
    let t = Token {
        symbol: ['A', 'é', '☃'],
        total_supply: 1_000_000,
        decimals: 9,
        initialized: true,
    };
    let bytes = t.pack_to_vec();
    assert_eq!(bytes.len(), 22);
    assert_eq!(&bytes[0..4], &[0x41, 0, 0, 0]);
    assert_eq!(&bytes[4..8], &[0xE9, 0, 0, 0]);
    assert_eq!(&bytes[8..12], &[0x03, 0x26, 0, 0]);
    assert_eq!(Token::unpack_from_slice(&bytes).unwrap(), t);
}

#[test]
fn token_rejects_surrogate_code_point() {
    let mut bytes = vec![0u8; 22];
    // 0xD800 is a surrogate: not a Unicode scalar value.
    bytes[0] = 0x00;
    bytes[1] = 0xD8;
    assert_eq!(
        Token::unpack_from_slice(&bytes),
        Err(ProgramError::InvalidAccountData)
    );
}

#[test]
fn hello_round_trip() {
    let h = Hello { times: 0xDEAD_BEEF };
    let bytes = h.pack_to_vec();
    assert_eq!(bytes.len(), 4);
    assert_eq!(bytes, vec![0xEF, 0xBE, 0xAD, 0xDE]);
    assert_eq!(Hello::unpack_from_slice(&bytes).unwrap(), h);
}

#[test]
fn wrapper_round_trip() {
    let w = Wrapper {
        src20_treasury: key(7),
        src20_token: key(8),
        spl_treasury: key(9),
        spl_token: key(10),
        initialized: true,
    };
    let bytes = w.pack_to_vec();
    assert_eq!(bytes.len(), 129);
    assert_eq!(Wrapper::unpack_from_slice(&bytes).unwrap(), w);
}

#[test]
fn mint_round_trip() {
    let m = Mint { supply: 42, decimals: 6, initialized: true };
    let bytes = m.pack_to_vec();
    assert_eq!(bytes.len(), 10);
    assert_eq!(Mint::unpack_from_slice(&bytes).unwrap(), m);
}

#[test]
fn dummy_round_trip() {
    let d = Dummy { amount: 123_456_789 };
    let bytes = d.pack_to_vec();
    assert_eq!(bytes.len(), 8);
    assert_eq!(Dummy::unpack_from_slice(&bytes).unwrap(), d);
}

#[test]
fn unpack_token_constructor_instruction() {
    let mut data = vec![0u8];
    data.extend_from_slice(&(b'S' as u32).to_le_bytes());
    data.extend_from_slice(&(b'R' as u32).to_le_bytes());
    data.extend_from_slice(&(b'C' as u32).to_le_bytes());
    data.extend_from_slice(&5_000_000u64.to_le_bytes());
    data.push(9);
    let ix = AppInstruction::unpack(&data).unwrap();
    assert_eq!(
        ix,
        AppInstruction::TokenConstructor {
            symbol: ['S', 'R', 'C'],
            total_supply: 5_000_000,
            decimals: 9,
        }
    );
}

#[test]
fn unpack_amount_instructions() {
    for (tag, want) in [
        (2u8, AppInstruction::DelegationConstructor { amount: 400 }),
        (3u8, AppInstruction::Transfer { amount: 400 }),
        (4u8, AppInstruction::Approve { amount: 400 }),
        (5u8, AppInstruction::TransferFrom { amount: 400 }),
    ] {
        let mut data = vec![tag];
        data.extend_from_slice(&400u64.to_le_bytes());
        assert_eq!(AppInstruction::unpack(&data).unwrap(), want);
    }
    assert_eq!(
        AppInstruction::unpack(&[1]).unwrap(),
        AppInstruction::AccountConstructor {}
    );
    assert_eq!(AppInstruction::unpack(&[6]).unwrap(), AppInstruction::Revoke);
}

#[test]
fn unpack_rejects_malformed_instructions() {
    // The invalid-instruction error carries the ledger's stable code 0.
    let invalid = Err(ProgramError::Custom(0));
    assert_eq!(AppInstruction::unpack(&[]), invalid);
    assert_eq!(AppInstruction::unpack(&[7]), invalid);
    // Transfer with a short payload.
    assert_eq!(AppInstruction::unpack(&[3, 1, 2, 3]), invalid);
    // Constructor with a surrogate code point in the symbol.
    let mut data = vec![0u8];
    data.extend_from_slice(&0xD800u32.to_le_bytes());
    data.extend_from_slice(&[0u8; 17]);
    assert_eq!(AppInstruction::unpack(&data), invalid);
    // Constructor one byte short of its fixed payload.
    assert_eq!(AppInstruction::unpack(&vec![0u8; 21]), invalid);
}
