//! End-to-end behaviour of the token ledger processor on concrete slots.
use src20_ledger::hello;
use src20_ledger::program_error::ProgramError;
use src20_ledger::pubkey::Pubkey;
use src20_ledger::slot::Slot;
use src20_ledger::src20::processor::Processor;
use src20_ledger::src20::schema::{Account, Delegation, Token};

fn key(b: u8) -> Pubkey {
    Pubkey { bytes: [b; 32] }
}

fn slot(k: Pubkey, owner: Pubkey, is_signer: bool, data: Vec<u8>) -> Slot {
    Slot { key: k, owner, is_signer, lamports: 0, data }
}

fn token_constructor_data(supply: u64, decimals: u8) -> Vec<u8> {
    let mut data = vec![0u8];
    data.extend_from_slice(&(b'S' as u32).to_le_bytes());
    data.extend_from_slice(&(b'R' as u32).to_le_bytes());
    data.extend_from_slice(&(b'C' as u32).to_le_bytes());
    data.extend_from_slice(&supply.to_le_bytes());
    data.push(decimals);
    data
}

fn amount_data(tag: u8, amount: u64) -> Vec<u8> {
    let mut data = vec![tag];
    data.extend_from_slice(&amount.to_le_bytes());
    data
}

fn initialized_token() -> Token {
    Token { symbol: ['S', 'R', 'C'], total_supply: 1000, decimals: 9, initialized: true }
}

#[test]
fn token_constructor_initializes_once() {
    let pid = key(100);
    let deployer = key(1);
    let token_key = key(50);
    let dst_key = key(51);
    let mut accounts = vec![
        slot(deployer, key(0), true, vec![]),
        slot(token_key, pid, true, vec![0u8; 22]),
        slot(dst_key, pid, true, vec![0u8; 73]),
    ];
    let data = token_constructor_data(1000, 9);
    assert_eq!(Processor::process(&pid, &mut accounts, &data), Ok(()));

    let token = Token::unpack_from_slice(&accounts[1].data).unwrap();
    assert!(token.initialized);
    assert_eq!(token.total_supply, 1000);
    assert_eq!(token.decimals, 9);
    assert_eq!(token.symbol, ['S', 'R', 'C']);
    let dst = Account::unpack_from_slice(&accounts[2].data).unwrap();
    assert_eq!(dst.owner, deployer);
    assert_eq!(dst.token, token_key);
    assert_eq!(dst.amount, 1000);
    assert!(dst.initialized);

    // Construct-once: the second run fails and must leave every slot
    // exactly as it was.
    let before: Vec<Vec<u8>> = accounts.iter().map(|a| a.data.clone()).collect();
    assert_eq!(
        Processor::process(&pid, &mut accounts, &data),
        Err(ProgramError::Custom(4))
    );
    let after: Vec<Vec<u8>> = accounts.iter().map(|a| a.data.clone()).collect();
    assert_eq!(before, after);
}

#[test]
fn account_constructor_initializes_once() {
    let pid = key(100);
    let caller = key(2);
    let token_key = key(50);
    let mut accounts = vec![
        slot(caller, key(0), true, vec![]),
        slot(token_key, pid, false, initialized_token().pack_to_vec()),
        slot(key(52), pid, true, vec![0u8; 73]),
    ];
    assert_eq!(Processor::process(&pid, &mut accounts, &[1]), Ok(()));
    let acc = Account::unpack_from_slice(&accounts[2].data).unwrap();
    assert_eq!(acc.owner, caller);
    assert_eq!(acc.token, token_key);
    assert_eq!(acc.amount, 0);
    assert!(acc.initialized);

    assert_eq!(
        Processor::process(&pid, &mut accounts, &[1]),
        Err(ProgramError::Custom(4))
    );
}

#[test]
fn account_constructor_needs_initialized_token() {
    let pid = key(100);
    let mut accounts = vec![
        slot(key(2), key(0), true, vec![]),
        slot(key(50), pid, false, {
            let mut t = initialized_token();
            t.initialized = false;
            t.pack_to_vec()
        }),
        slot(key(52), pid, true, vec![0u8; 73]),
    ];
    assert_eq!(
        Processor::process(&pid, &mut accounts, &[1]),
        Err(ProgramError::Custom(5))
    );
}

fn transfer_accounts(pid: Pubkey, owner_key: Pubkey, signer: bool, src_amount: u64, dst_amount: u64) -> Vec<Slot> {
    let token_key = key(50);
    let src = Account { owner: key(1), token: token_key, amount: src_amount, initialized: true };
    let dst = Account { owner: key(2), token: token_key, amount: dst_amount, initialized: true };
    vec![
        slot(owner_key, key(0), signer, vec![]),
        slot(token_key, pid, false, initialized_token().pack_to_vec()),
        slot(key(61), pid, false, src.pack_to_vec()),
        slot(key(62), pid, false, dst.pack_to_vec()),
    ]
}

#[test]
fn transfer_moves_amount_and_conserves_total() {
    let pid = key(100);
    let mut accounts = transfer_accounts(pid, key(1), true, 100, 5);
    assert_eq!(
        Processor::process(&pid, &mut accounts, &amount_data(3, 30)),
        Ok(())
    );
    let src = Account::unpack_from_slice(&accounts[2].data).unwrap();
    let dst = Account::unpack_from_slice(&accounts[3].data).unwrap();
    assert_eq!(src.amount, 70);
    assert_eq!(dst.amount, 35);
    assert_eq!(src.amount + dst.amount, 105);
}

#[test]
fn transfer_chain_conserves_total() {
    let pid = key(100);
    let mut accounts = transfer_accounts(pid, key(1), true, 100, 5);
    let total = |accounts: &Vec<Slot>| {
        Account::unpack_from_slice(&accounts[2].data).unwrap().amount
            + Account::unpack_from_slice(&accounts[3].data).unwrap().amount
    };
    let start = total(&accounts);
    for amount in [30u64, 1, 40] {
        assert_eq!(
            Processor::process(&pid, &mut accounts, &amount_data(3, amount)),
            Ok(())
        );
        assert_eq!(total(&accounts), start);
    }
    assert_eq!(Account::unpack_from_slice(&accounts[2].data).unwrap().amount, 29);
}

#[test]
fn transfer_rejects_wrong_owner() {
    let pid = key(100);
    // The signer's key is not the source account's owner.
    let mut accounts = transfer_accounts(pid, key(9), true, 100, 5);
    let before: Vec<Vec<u8>> = accounts.iter().map(|a| a.data.clone()).collect();
    assert_eq!(
        Processor::process(&pid, &mut accounts, &amount_data(3, 30)),
        Err(ProgramError::Custom(1))
    );
    let after: Vec<Vec<u8>> = accounts.iter().map(|a| a.data.clone()).collect();
    assert_eq!(before, after);
}

#[test]
fn transfer_rejects_missing_signature() {
    let pid = key(100);
    let mut accounts = transfer_accounts(pid, key(1), false, 100, 5);
    assert_eq!(
        Processor::process(&pid, &mut accounts, &amount_data(3, 30)),
        Err(ProgramError::Custom(1))
    );
}

#[test]
fn transfer_same_slot_is_noop_success() {
    let pid = key(100);
    let token_key = key(50);
    let acc = Account { owner: key(1), token: token_key, amount: 40, initialized: true };
    let mut accounts = vec![
        slot(key(1), key(0), true, vec![]),
        slot(token_key, pid, false, initialized_token().pack_to_vec()),
        slot(key(61), pid, false, acc.pack_to_vec()),
        slot(key(61), pid, false, acc.pack_to_vec()),
    ];
    // Succeeds even for an amount above the balance, and changes nothing.
    assert_eq!(
        Processor::process(&pid, &mut accounts, &amount_data(3, 1000)),
        Ok(())
    );
    assert_eq!(Account::unpack_from_slice(&accounts[2].data).unwrap().amount, 40);
    assert_eq!(Account::unpack_from_slice(&accounts[3].data).unwrap().amount, 40);
}

#[test]
fn transfer_rejects_insufficient_balance() {
    let pid = key(100);
    let mut accounts = transfer_accounts(pid, key(1), true, 10, 5);
    assert_eq!(
        Processor::process(&pid, &mut accounts, &amount_data(3, 11)),
        Err(ProgramError::Custom(6))
    );
}

#[test]
fn transfer_rejects_destination_overflow() {
    let pid = key(100);
    let mut accounts = transfer_accounts(pid, key(1), true, 10, u64::MAX);
    assert_eq!(
        Processor::process(&pid, &mut accounts, &amount_data(3, 1)),
        Err(ProgramError::Custom(6))
    );
}

#[test]
fn transfer_rejects_foreign_storage() {
    let pid = key(100);
    let mut accounts = transfer_accounts(pid, key(1), true, 100, 5);
    accounts[2].owner = key(99);
    assert_eq!(
        Processor::process(&pid, &mut accounts, &amount_data(3, 30)),
        Err(ProgramError::Custom(2))
    );
}

#[test]
fn transfer_rejects_wrong_mint() {
    let pid = key(100);
    let mut accounts = transfer_accounts(pid, key(1), true, 100, 5);
    let other = Account { owner: key(1), token: key(77), amount: 100, initialized: true };
    accounts[2].data = other.pack_to_vec();
    assert_eq!(
        Processor::process(&pid, &mut accounts, &amount_data(3, 30)),
        Err(ProgramError::Custom(3))
    );
}

#[test]
fn delegation_constructor_is_accepted_noop() {
    let pid = key(100);
    let mut accounts: Vec<Slot> = vec![];
    assert_eq!(
        Processor::process(&pid, &mut accounts, &amount_data(2, 5)),
        Ok(())
    );
}

#[test]
fn allowance_accounting() {
    let pid = key(100);
    let token_key = key(50);
    let owner_key = key(1);
    let delegate_key = key(3);
    let src_key = key(61);
    let dst_key = key(62);
    let src = Account { owner: owner_key, token: token_key, amount: 100, initialized: true };
    let dst = Account { owner: key(2), token: token_key, amount: 0, initialized: true };

    // Approve an allowance of 50.
    let mut approve_accounts = vec![
        slot(owner_key, key(0), true, vec![]),
        slot(token_key, pid, false, initialized_token().pack_to_vec()),
        slot(key(70), pid, true, vec![0u8; 137]),
        slot(src_key, pid, false, src.pack_to_vec()),
        slot(delegate_key, key(0), false, vec![]),
    ];
    assert_eq!(
        Processor::process(&pid, &mut approve_accounts, &amount_data(4, 50)),
        Ok(())
    );
    let delegation = Delegation::unpack_from_slice(&approve_accounts[2].data).unwrap();
    assert_eq!(delegation.owner, owner_key);
    assert_eq!(delegation.token, token_key);
    assert_eq!(delegation.source, src_key);
    assert_eq!(delegation.delegate, delegate_key);
    assert_eq!(delegation.amount, 50);
    assert!(delegation.initialized);

    // A second approval through the same delegation slot must fail.
    let mut again = approve_accounts.clone();
    assert_eq!(
        Processor::process(&pid, &mut again, &amount_data(4, 50)),
        Err(ProgramError::Custom(4))
    );

    // Spend 20 of the allowance.
    let mut tf_accounts = vec![
        slot(delegate_key, key(0), true, vec![]),
        slot(token_key, pid, false, initialized_token().pack_to_vec()),
        slot(key(70), pid, false, approve_accounts[2].data.clone()),
        slot(src_key, pid, false, src.pack_to_vec()),
        slot(dst_key, pid, false, dst.pack_to_vec()),
    ];
    assert_eq!(
        Processor::process(&pid, &mut tf_accounts, &amount_data(5, 20)),
        Ok(())
    );
    let delegation = Delegation::unpack_from_slice(&tf_accounts[2].data).unwrap();
    assert_eq!(delegation.amount, 30);
    assert_eq!(Account::unpack_from_slice(&tf_accounts[3].data).unwrap().amount, 80);
    assert_eq!(Account::unpack_from_slice(&tf_accounts[4].data).unwrap().amount, 20);

    // One more unit than the remaining allowance must overflow and leave
    // all three records untouched.
    let before: Vec<Vec<u8>> = tf_accounts.iter().map(|a| a.data.clone()).collect();
    assert_eq!(
        Processor::process(&pid, &mut tf_accounts, &amount_data(5, 31)),
        Err(ProgramError::Custom(6))
    );
    let after: Vec<Vec<u8>> = tf_accounts.iter().map(|a| a.data.clone()).collect();
    assert_eq!(before, after);
}

#[test]
fn transfer_from_rejects_wrong_delegate() {
    let pid = key(100);
    let token_key = key(50);
    let delegation = Delegation {
        owner: key(1),
        token: token_key,
        source: key(61),
        delegate: key(3),
        amount: 50,
        initialized: true,
    };
    let src = Account { owner: key(1), token: token_key, amount: 100, initialized: true };
    let dst = Account { owner: key(2), token: token_key, amount: 0, initialized: true };
    let mut accounts = vec![
        // The signer is not the delegation's delegate.
        slot(key(9), key(0), true, vec![]),
        slot(token_key, pid, false, initialized_token().pack_to_vec()),
        slot(key(70), pid, false, delegation.pack_to_vec()),
        slot(key(61), pid, false, src.pack_to_vec()),
        slot(key(62), pid, false, dst.pack_to_vec()),
    ];
    assert_eq!(
        Processor::process(&pid, &mut accounts, &amount_data(5, 1)),
        Err(ProgramError::Custom(1))
    );
}

#[test]
fn revoke_zeroes_allowance_and_returns_deposit() {
    let pid = key(100);
    let token_key = key(50);
    let owner_key = key(1);
    let delegation = Delegation {
        owner: owner_key,
        token: token_key,
        source: key(61),
        delegate: key(3),
        amount: 30,
        initialized: true,
    };
    let mut accounts = vec![
        slot(owner_key, key(0), true, vec![]),
        slot(token_key, pid, false, initialized_token().pack_to_vec()),
        slot(key(70), pid, false, delegation.pack_to_vec()),
    ];
    accounts[0].lamports = 10;
    accounts[2].lamports = 7;
    assert_eq!(Processor::process(&pid, &mut accounts, &[6]), Ok(()));
    assert_eq!(accounts[0].lamports, 17);
    assert_eq!(accounts[2].lamports, 0);
    let revoked = Delegation::unpack_from_slice(&accounts[2].data).unwrap();
    assert_eq!(revoked.amount, 0);
    assert!(revoked.initialized);
}

#[test]
fn revoke_rejects_wrong_owner() {
    let pid = key(100);
    let token_key = key(50);
    let delegation = Delegation {
        owner: key(1),
        token: token_key,
        source: key(61),
        delegate: key(3),
        amount: 30,
        initialized: true,
    };
    let mut accounts = vec![
        slot(key(9), key(0), true, vec![]),
        slot(token_key, pid, false, initialized_token().pack_to_vec()),
        slot(key(70), pid, false, delegation.pack_to_vec()),
    ];
    assert_eq!(
        Processor::process(&pid, &mut accounts, &[6]),
        Err(ProgramError::Custom(1))
    );
}

#[test]
fn process_rejects_missing_accounts() {
    let pid = key(100);
    let mut accounts: Vec<Slot> = vec![];
    assert_eq!(
        Processor::process(&pid, &mut accounts, &amount_data(3, 1)),
        Err(ProgramError::NotEnoughAccountKeys)
    );
}

#[test]
fn hello_adds_to_counter() {
    let pid = key(100);
    let h = hello::schema::Hello { times: 5 };
    let mut accounts = vec![slot(key(1), pid, false, h.pack_to_vec())];
    let mut data = vec![0u8];
    data.extend_from_slice(&3u32.to_le_bytes());
    assert_eq!(
        hello::processor::Processor::process(&pid, &mut accounts, &data),
        Ok(())
    );
    let back = hello::schema::Hello::unpack_from_slice(&accounts[0].data).unwrap();
    assert_eq!(back.times, 8);
}

#[test]
fn hello_rejects_counter_overflow() {
    let pid = key(100);
    let h = hello::schema::Hello { times: u32::MAX };
    let mut accounts = vec![slot(key(1), pid, false, h.pack_to_vec())];
    let mut data = vec![0u8];
    data.extend_from_slice(&1u32.to_le_bytes());
    assert_eq!(
        hello::processor::Processor::process(&pid, &mut accounts, &data),
        Err(ProgramError::Custom(2))
    );
}

#[test]
fn hello_rejects_foreign_storage() {
    let pid = key(100);
    let h = hello::schema::Hello { times: 5 };
    let mut accounts = vec![slot(key(1), key(9), false, h.pack_to_vec())];
    assert_eq!(
        hello::processor::Processor::process(&pid, &mut accounts, &[0, 1, 0, 0, 0]),
        Err(ProgramError::Custom(1))
    );
}
