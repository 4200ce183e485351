//! End-to-end behaviour of the bridge processor on concrete slots, with the
//! real derived-authority key function.
use src20_ledger::program_error::ProgramError;
use src20_ledger::pubkey::{Pubkey, derive_authority};
use src20_ledger::slot::Slot;
use src20_ledger::src20::instruction::AppInstruction as LedgerInstruction;
use src20_ledger::wsrc20::instruction::AppInstruction;
use src20_ledger::wsrc20::processor::Processor;
use src20_ledger::src20::schema::{Account, Token};
use src20_ledger::wsrc20::schema::{Mint, Wrapper};

fn key(b: u8) -> Pubkey {
    Pubkey { bytes: [b; 32] }
}

fn slot(k: Pubkey, owner: Pubkey, is_signer: bool, data: Vec<u8>) -> Slot {
    Slot { key: k, owner, is_signer, lamports: 0, data }
}

/// A descriptor key for which a derived authority exists under `pid`.
fn derivable_wrapper_key(pid: &Pubkey) -> (Pubkey, Pubkey) {
    for b in 0..=255u8 {
        let candidate = key(b);
        if let Some(authority) = derive_authority(&candidate, pid) {
            return (candidate, authority);
        }
    }
    panic!("no derivable descriptor key found");
}

#[test]
fn derive_authority_is_deterministic() {
    let pid = key(200);
    let (wrapper_key, authority) = derivable_wrapper_key(&pid);
    let again = derive_authority(&wrapper_key, &pid).unwrap();
    assert_eq!(authority, again);
    // The derived key is a digest over seed and program identity, never the
    // seed itself.
    assert_ne!(authority, wrapper_key);
}

/// A descriptor key for which no derived authority exists under `pid`.
fn underivable_wrapper_key(pid: &Pubkey) -> Pubkey {
    for b in 0..=255u8 {
        let candidate = key(b);
        if derive_authority(&candidate, pid).is_none() {
            return candidate;
        }
    }
    panic!("no underivable descriptor key found");
}

#[test]
fn wrap_rejects_underivable_descriptor() {
    let pid = key(200);
    let wrapper_key = underivable_wrapper_key(&pid);
    let mut accounts = bridge_accounts(&pid, wrapper_key, key(97));
    let mut data = vec![1u8];
    data.extend_from_slice(&25u64.to_le_bytes());
    assert_eq!(
        Processor::process(&pid, &mut accounts, &data),
        Err(ProgramError::InvalidSeeds)
    );
}

#[test]
fn unpack_bridge_instructions() {
    let mut data = vec![0u8];
    for c in ['w', 'S', 'R', 'C'] {
        data.extend_from_slice(&(c as u32).to_le_bytes());
    }
    assert_eq!(
        AppInstruction::unpack(&data).unwrap(),
        AppInstruction::Constructor { symbol: ['w', 'S', 'R', 'C'] }
    );
    let mut wrap = vec![1u8];
    wrap.extend_from_slice(&9u64.to_le_bytes());
    assert_eq!(
        AppInstruction::unpack(&wrap).unwrap(),
        AppInstruction::Wrap { amount: 9 }
    );
    let mut unwrap_data = vec![2u8];
    unwrap_data.extend_from_slice(&9u64.to_le_bytes());
    assert_eq!(
        AppInstruction::unpack(&unwrap_data).unwrap(),
        AppInstruction::Unwrap { amount: 9 }
    );
    assert_eq!(AppInstruction::unpack(&[3]), Err(ProgramError::Custom(0)));
    assert_eq!(
        AppInstruction::unpack(&vec![0u8; 16]),
        Err(ProgramError::Custom(0))
    );
}

fn amount_data(tag: u8, amount: u64) -> Vec<u8> {
    let mut data = vec![tag];
    data.extend_from_slice(&amount.to_le_bytes());
    data
}

fn bridge_accounts(pid: &Pubkey, wrapper_key: Pubkey, authority: Pubkey) -> Vec<Slot> {
    let wrapper = Wrapper {
        src20_treasury: key(21),
        src20_token: key(22),
        spl_treasury: key(24),
        spl_token: key(25),
        initialized: true,
    };
    vec![
        slot(key(10), key(0), true, vec![]),        // owner
        slot(key(11), key(0), false, vec![]),       // source
        slot(key(12), key(0), false, vec![]),       // destination
        slot(wrapper_key, *pid, false, wrapper.pack_to_vec()),
        slot(authority, key(0), false, vec![]),     // derived authority
        slot(key(21), key(0), false, vec![]),       // ledger treasury
        slot(key(22), key(0), false, vec![]),       // ledger mint
        slot(key(23), key(0), false, vec![]),       // ledger program
        slot(key(24), key(0), false, vec![]),       // foreign treasury
        slot(key(25), key(0), false, vec![]),       // foreign mint
        slot(key(26), key(0), false, vec![]),       // foreign program
    ]
}

#[test]
fn wrap_dispatches_mirror_transfers() {
    let pid = key(200);
    let (wrapper_key, authority) = derivable_wrapper_key(&pid);
    let mut accounts = bridge_accounts(&pid, wrapper_key, authority);
    let before: Vec<Vec<u8>> = accounts.iter().map(|a| a.data.clone()).collect();

    let subs = Processor::process(&pid, &mut accounts, &amount_data(1, 25)).unwrap();
    assert_eq!(subs.len(), 2);
    let after: Vec<Vec<u8>> = accounts.iter().map(|a| a.data.clone()).collect();
    assert_eq!(before, after);

    // First leg: the foreign ledger's transfer, dispatched unsigned.
    assert_eq!(subs[0].signer_seed, None);
    assert_eq!(subs[0].instruction.program_id, key(26));
    let mut want = vec![3u8];
    want.extend_from_slice(&25u64.to_le_bytes());
    assert_eq!(subs[0].instruction.data, want);
    assert_eq!(subs[0].instruction.accounts[0].pubkey, key(11));
    assert_eq!(subs[0].instruction.accounts[1].pubkey, key(24));
    assert_eq!(subs[0].instruction.accounts[2].pubkey, key(10));
    assert!(subs[0].instruction.accounts[2].is_signer);

    // Second leg: this repository's ledger, signed by the derived
    // authority; its payload decodes under the ledger's own codec.
    assert_eq!(subs[1].signer_seed, Some(wrapper_key));
    assert_eq!(subs[1].instruction.program_id, key(23));
    assert_eq!(
        LedgerInstruction::unpack(&subs[1].instruction.data).unwrap(),
        LedgerInstruction::Transfer { amount: 25 }
    );
    assert_eq!(subs[1].instruction.accounts[0].pubkey, authority);
    assert_eq!(subs[1].instruction.accounts[2].pubkey, key(21)); // treasury pays out
    assert_eq!(subs[1].instruction.accounts[3].pubkey, key(12)); // destination
}

#[test]
fn unwrap_mirrors_wrap() {
    let pid = key(200);
    let (wrapper_key, authority) = derivable_wrapper_key(&pid);
    let mut accounts = bridge_accounts(&pid, wrapper_key, authority);
    let wrap_subs = Processor::process(&pid, &mut accounts, &amount_data(1, 25)).unwrap();
    let unwrap_subs = Processor::process(&pid, &mut accounts, &amount_data(2, 25)).unwrap();

    // The ledger-side legs carry the identical transfer payload ...
    assert_eq!(wrap_subs[1].instruction.data, unwrap_subs[0].instruction.data);
    assert_eq!(
        wrap_subs[1].instruction.program_id,
        unwrap_subs[0].instruction.program_id
    );
    // ... with treasury and account exchanged between source and
    // destination; the source of the unwrap is the wrapped account.
    assert_eq!(unwrap_subs[0].signer_seed, None);
    assert_eq!(unwrap_subs[0].instruction.accounts[2].pubkey, key(11));
    assert_eq!(unwrap_subs[0].instruction.accounts[3].pubkey, key(21));

    // Foreign leg of the unwrap: treasury back to the destination, signed
    // by the derived authority.
    assert_eq!(unwrap_subs[1].signer_seed, Some(wrapper_key));
    assert_eq!(unwrap_subs[1].instruction.program_id, key(26));
    assert_eq!(unwrap_subs[1].instruction.accounts[0].pubkey, key(24));
    assert_eq!(unwrap_subs[1].instruction.accounts[1].pubkey, key(12));
    assert_eq!(unwrap_subs[1].instruction.accounts[2].pubkey, authority);
}

#[test]
fn wrap_then_unwrap_restores_ledger_balances() {
    let pid = key(200);
    let ledger_pid = key(23);
    let (wrapper_key, authority) = derivable_wrapper_key(&pid);
    let mut accounts = bridge_accounts(&pid, wrapper_key, authority);
    let wrap_subs = Processor::process(&pid, &mut accounts, &amount_data(1, 25)).unwrap();
    let unwrap_subs = Processor::process(&pid, &mut accounts, &amount_data(2, 25)).unwrap();

    // Run the two ledger-side legs against the ledger itself: the treasury
    // pays the account on wrap, the account pays the treasury back on
    // unwrap, and both balances end where they started.
    let token = Token { symbol: ['S', 'R', 'C'], total_supply: 100, decimals: 9, initialized: true };
    let treasury = Account { owner: authority, token: key(22), amount: 100, initialized: true };
    let user = Account { owner: key(10), token: key(22), amount: 0, initialized: true };

    let wrap_leg = &wrap_subs[1].instruction;
    let mut ledger_accounts: Vec<Slot> = vec![
        slot(authority, key(0), true, vec![]),
        slot(key(22), ledger_pid, false, token.pack_to_vec()),
        slot(key(21), ledger_pid, false, treasury.pack_to_vec()),
        slot(key(12), ledger_pid, false, user.pack_to_vec()),
    ];
    assert_eq!(wrap_leg.accounts[2].pubkey, key(21));
    assert_eq!(wrap_leg.accounts[3].pubkey, key(12));
    assert_eq!(
        src20_ledger::src20::processor::Processor::process(
            &ledger_pid,
            &mut ledger_accounts,
            &wrap_leg.data,
        ),
        Ok(())
    );
    assert_eq!(Account::unpack_from_slice(&ledger_accounts[2].data).unwrap().amount, 75);
    assert_eq!(Account::unpack_from_slice(&ledger_accounts[3].data).unwrap().amount, 25);

    let unwrap_leg = &unwrap_subs[0].instruction;
    assert_eq!(unwrap_leg.accounts[2].pubkey, key(11));
    assert_eq!(unwrap_leg.accounts[3].pubkey, key(21));
    // The unwrap leg spends from the owner's ledger account; here that
    // account is the one wrap credited.
    let mut back_accounts: Vec<Slot> = vec![
        slot(key(10), key(0), true, vec![]),
        slot(key(22), ledger_pid, false, ledger_accounts[1].data.clone()),
        slot(key(11), ledger_pid, false, ledger_accounts[3].data.clone()),
        slot(key(21), ledger_pid, false, ledger_accounts[2].data.clone()),
    ];
    assert_eq!(
        src20_ledger::src20::processor::Processor::process(
            &ledger_pid,
            &mut back_accounts,
            &unwrap_leg.data,
        ),
        Ok(())
    );
    assert_eq!(Account::unpack_from_slice(&back_accounts[2].data).unwrap().amount, 0);
    assert_eq!(Account::unpack_from_slice(&back_accounts[3].data).unwrap().amount, 100);
}

#[test]
fn wrap_rejects_unmatched_descriptor() {
    let pid = key(200);
    let (wrapper_key, authority) = derivable_wrapper_key(&pid);
    let mut accounts = bridge_accounts(&pid, wrapper_key, authority);
    // Supply a treasury slot that is not the descriptor's.
    accounts[5] = slot(key(99), key(0), false, vec![]);
    assert_eq!(
        Processor::process(&pid, &mut accounts, &amount_data(1, 25)),
        Err(ProgramError::Custom(7))
    );
}

#[test]
fn wrap_rejects_wrong_authority() {
    let pid = key(200);
    let (wrapper_key, _) = derivable_wrapper_key(&pid);
    let mut accounts = bridge_accounts(&pid, wrapper_key, key(98));
    accounts[4] = slot(key(98), key(0), false, vec![]);
    assert_eq!(
        Processor::process(&pid, &mut accounts, &amount_data(1, 25)),
        Err(ProgramError::Custom(1))
    );
}

#[test]
fn constructor_writes_descriptor_once() {
    let pid = key(200);
    let (wrapper_key, authority) = derivable_wrapper_key(&pid);
    let mint = Mint { supply: 777, decimals: 6, initialized: true };
    let mut accounts = vec![
        slot(wrapper_key, pid, true, vec![0u8; 129]),
        slot(authority, key(0), false, vec![]),
        slot(key(21), key(0), false, vec![]), // ledger treasury
        slot(key(22), key(0), false, vec![]), // ledger mint
        slot(key(23), key(0), false, vec![]), // ledger program
        slot(key(24), key(0), false, vec![]), // foreign treasury
        slot(key(25), key(0), false, mint.pack_to_vec()), // foreign mint
        slot(key(26), key(0), false, vec![]), // foreign program
        slot(key(27), key(0), false, vec![]), // rent sysvar
    ];
    let mut data = vec![0u8];
    for c in ['w', 'S', 'R', 'C'] {
        data.extend_from_slice(&(c as u32).to_le_bytes());
    }
    let subs = Processor::process(&pid, &mut accounts, &data).unwrap();
    assert_eq!(subs.len(), 2);

    let descriptor = Wrapper::unpack_from_slice(&accounts[0].data).unwrap();
    assert!(descriptor.initialized);
    assert_eq!(descriptor.src20_treasury, key(21));
    assert_eq!(descriptor.src20_token, key(22));
    assert_eq!(descriptor.spl_treasury, key(24));
    assert_eq!(descriptor.spl_token, key(25));

    // The ledger-side leg is a mint constructor carrying the foreign
    // mint's supply and decimals and the symbol's first three code points,
    // signed by the derived authority.
    assert_eq!(subs[0].signer_seed, Some(wrapper_key));
    assert_eq!(subs[0].instruction.program_id, key(23));
    assert_eq!(
        LedgerInstruction::unpack(&subs[0].instruction.data).unwrap(),
        LedgerInstruction::TokenConstructor {
            symbol: ['w', 'S', 'R'],
            total_supply: 777,
            decimals: 6,
        }
    );
    // The foreign-side leg initializes the treasury.
    assert_eq!(subs[1].signer_seed, None);
    assert_eq!(subs[1].instruction.program_id, key(26));
    assert_eq!(subs[1].instruction.data, vec![1u8]);

    // Construct-once.
    assert_eq!(
        Processor::process(&pid, &mut accounts, &data),
        Err(ProgramError::Custom(4))
    );
}

#[test]
fn constructor_needs_initialized_foreign_mint() {
    let pid = key(200);
    let (wrapper_key, authority) = derivable_wrapper_key(&pid);
    let mint = Mint { supply: 777, decimals: 6, initialized: false };
    let mut accounts = vec![
        slot(wrapper_key, pid, true, vec![0u8; 129]),
        slot(authority, key(0), false, vec![]),
        slot(key(21), key(0), false, vec![]),
        slot(key(22), key(0), false, vec![]),
        slot(key(23), key(0), false, vec![]),
        slot(key(24), key(0), false, vec![]),
        slot(key(25), key(0), false, mint.pack_to_vec()),
        slot(key(26), key(0), false, vec![]),
        slot(key(27), key(0), false, vec![]),
    ];
    let mut data = vec![0u8];
    for c in ['w', 'S', 'R', 'C'] {
        data.extend_from_slice(&(c as u32).to_le_bytes());
    }
    assert_eq!(
        Processor::process(&pid, &mut accounts, &data),
        Err(ProgramError::Custom(5))
    );
}
