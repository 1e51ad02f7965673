use debt_vault::borsh_state::BorshState;
use debt_vault::error::Error;
use debt_vault::instruction::Instruction;
use debt_vault::instruction::encode_instruction;
use debt_vault::processor::Processor;
use debt_vault::state::Account;
use debt_vault::state::DebtType;
use debt_vault::state::Faucet;
use debt_vault::state::FaucetConfig;
use debt_vault::state::PublicKey;
use debt_vault::state::Vault;
use debt_vault::state::VaultType;

fn key(n: u8) -> PublicKey {
    let mut v = vec![0u8; 32];
    v[0] = n;
    v[1] = 0xaa;
    PublicKey::from_bytes(&v).unwrap()
}

fn rent_account() -> Account {
    // bincode::serialize of the host's own Rent value is the rent sysvar
    // account's canonical encoding; that is bincode's only use here.
    let rent = solana_program::rent::Rent::default();
    let data = bincode::serialize(&rent).unwrap();
    let id = solana_program::sysvar::rent::id();
    Account { key: PublicKey::from_bytes(&id.to_bytes().to_vec()).unwrap(), lamports: 0, data }
}

fn min_balance(len: usize) -> u64 {
    solana_program::rent::Rent::default().try_minimum_balance(len).unwrap()
}

fn empty_slot(key: PublicKey, len: usize) -> Account {
    Account { key, lamports: min_balance(len), data: vec![0u8; len] }
}

#[test]
fn init_debt_type_then_reject_second_init() {
    let program_id = key(9);
    let inx = encode_instruction(&Instruction::InitDebtType { debt_token: key(2), owner: key(3) });
    let mut accounts = vec![rent_account(), empty_slot(key(1), 65)];
    let r = Processor::process(&program_id, &mut accounts, &inx);
    assert_eq!(r, Ok(vec![]));
    let stored = DebtType::decode(&accounts[1].data).unwrap();
    assert!(stored.is_initialized);
    assert_eq!(stored.debt_token, key(2));
    assert_eq!(stored.owner, key(3));

    let before = accounts[1].data.clone();
    let r2 = Processor::process(&program_id, &mut accounts, &inx);
    assert_eq!(r2, Err(Error::AccountAlreadyInitialized));
    assert_eq!(accounts[1].data, before);
}

#[test]
fn init_vault_type_then_reject_second_init() {
    let program_id = key(9);
    let inx = encode_instruction(
        &Instruction::InitVaultType {
            debt_type: key(2),
            collateral_token: key(3),
            collateral_token_holder: key(4),
            price_oracle: key(5),
        },
    );
    let mut accounts = vec![rent_account(), empty_slot(key(1), 129)];
    assert_eq!(Processor::process(&program_id, &mut accounts, &inx), Ok(vec![]));
    let stored = VaultType::decode(&accounts[1].data).unwrap();
    assert!(stored.is_initialized);
    assert_eq!(stored.collateral_token_holder, key(4));
    let before = accounts[1].data.clone();
    assert_eq!(
        Processor::process(&program_id, &mut accounts, &inx),
        Err(Error::AccountAlreadyInitialized)
    );
    assert_eq!(accounts[1].data, before);
}

#[test]
fn init_vault_then_reject_second_init() {
    let program_id = key(9);
    let inx = encode_instruction(&Instruction::InitVault { vault_type: key(2), owner: key(3) });
    let mut accounts = vec![rent_account(), empty_slot(key(1), 81)];
    assert_eq!(Processor::process(&program_id, &mut accounts, &inx), Ok(vec![]));
    let stored = Vault::decode(&accounts[1].data).unwrap();
    assert!(stored.is_initialized);
    assert_eq!(stored.debt_amount, 0);
    assert_eq!(stored.collateral_amount, 0);
    let before = accounts[1].data.clone();
    assert_eq!(
        Processor::process(&program_id, &mut accounts, &inx),
        Err(Error::AccountAlreadyInitialized)
    );
    assert_eq!(accounts[1].data, before);
}

#[test]
fn init_faucet_then_reject_second_init() {
    let program_id = key(9);
    let inx = encode_instruction(&Instruction::InitFaucet { config: FaucetConfig { amount: 50 } });
    let mut accounts = vec![rent_account(), empty_slot(key(1), 57), Account {
        key: key(7),
        lamports: 0,
        data: vec![],
    }];
    assert_eq!(Processor::process(&program_id, &mut accounts, &inx), Ok(vec![]));
    let stored = Faucet::decode(&accounts[1].data).unwrap();
    assert!(stored.is_initialized);
    assert_eq!(stored.config.amount, 50);
    assert_eq!(stored.amount_supplied, 0);
    assert_eq!(stored.updated_at, 0);
    assert_eq!(stored.token, key(7));
    let before = accounts[1].data.clone();
    assert_eq!(
        Processor::process(&program_id, &mut accounts, &inx),
        Err(Error::AccountAlreadyInitialized)
    );
    assert_eq!(accounts[1].data, before);
}

#[test]
fn init_vault_carries_counters_of_the_decoded_slot() {
    // A slot that already decodes to an uninitialized vault keeps that
    // record's counters through initialization; a zero-filled slot starts
    // them at zero.
    let program_id = key(9);
    let inx = encode_instruction(&Instruction::InitVault { vault_type: key(2), owner: key(3) });
    let seeded = Vault {
        is_initialized: false,
        vault_type: key(8),
        owner: key(8),
        debt_amount: 7,
        collateral_amount: 11,
    };
    let mut accounts = vec![rent_account(), Account {
        key: key(1),
        lamports: min_balance(81),
        data: seeded.encode(),
    }];
    assert_eq!(Processor::process(&program_id, &mut accounts, &inx), Ok(vec![]));
    let stored = Vault::decode(&accounts[1].data).unwrap();
    assert!(stored.is_initialized);
    assert_eq!(stored.vault_type, key(2));
    assert_eq!(stored.owner, key(3));
    assert_eq!(stored.debt_amount, 7);
    assert_eq!(stored.collateral_amount, 11);
}

#[test]
fn init_fails_without_rent_exemption() {
    let program_id = key(9);
    let inx = encode_instruction(&Instruction::InitDebtType { debt_token: key(2), owner: key(3) });
    let mut slot = empty_slot(key(1), 65);
    slot.lamports = min_balance(65) - 1;
    let mut accounts = vec![rent_account(), slot];
    assert_eq!(Processor::process(&program_id, &mut accounts, &inx), Err(Error::NotRentExempt));
    assert_eq!(accounts[1].data, vec![0u8; 65]);
}

#[test]
fn init_fails_on_wrong_rent_sysvar() {
    let program_id = key(9);
    let inx = encode_instruction(&Instruction::InitDebtType { debt_token: key(2), owner: key(3) });
    let mut wrong_key = rent_account();
    wrong_key.key = key(40);
    let mut accounts = vec![wrong_key, empty_slot(key(1), 65)];
    assert_eq!(Processor::process(&program_id, &mut accounts, &inx), Err(Error::InvalidSysvar));

    let mut short_data = rent_account();
    short_data.data = vec![0u8; 10];
    let mut accounts = vec![short_data, empty_slot(key(1), 65)];
    assert_eq!(Processor::process(&program_id, &mut accounts, &inx), Err(Error::InvalidSysvar));
}

#[test]
fn init_rejects_unsupported_rent_rule() {
    // A caller-supplied rent account carrying a rule the host's
    // minimum-balance computation does not support (a threshold word that is
    // neither of the two known patterns, with the rate word at the maximum)
    // must exempt nothing, not overflow.
    let program_id = key(9);
    let inx = encode_instruction(&Instruction::InitDebtType { debt_token: key(2), owner: key(3) });
    let mut data = u64::MAX.to_le_bytes().to_vec();
    data.extend(3.0f64.to_le_bytes());
    data.push(50);
    let id = solana_program::sysvar::rent::id();
    let hostile_rent = Account {
        key: PublicKey::from_bytes(&id.to_bytes().to_vec()).unwrap(),
        lamports: 0,
        data,
    };
    let mut accounts = vec![hostile_rent, Account {
        key: key(1),
        lamports: u64::MAX,
        data: vec![0u8; 65],
    }];
    assert_eq!(Processor::process(&program_id, &mut accounts, &inx), Err(Error::NotRentExempt));
    assert_eq!(accounts[1].data, vec![0u8; 65]);
}

#[test]
fn init_fails_on_missing_accounts() {
    let program_id = key(9);
    let inx = encode_instruction(&Instruction::InitDebtType { debt_token: key(2), owner: key(3) });
    let mut accounts: Vec<Account> = vec![];
    assert_eq!(
        Processor::process(&program_id, &mut accounts, &inx),
        Err(Error::NotEnoughAccountKeys)
    );
    let mut accounts = vec![rent_account()];
    assert_eq!(
        Processor::process(&program_id, &mut accounts, &inx),
        Err(Error::NotEnoughAccountKeys)
    );
    let faucet_inx = encode_instruction(&Instruction::InitFaucet { config: FaucetConfig { amount: 1 } });
    let mut accounts = vec![rent_account(), empty_slot(key(1), 57)];
    assert_eq!(
        Processor::process(&program_id, &mut accounts, &faucet_inx),
        Err(Error::NotEnoughAccountKeys)
    );
}

#[test]
fn init_fails_on_undecodable_slot() {
    let program_id = key(9);
    let inx = encode_instruction(&Instruction::InitDebtType { debt_token: key(2), owner: key(3) });
    let mut bad = empty_slot(key(1), 65);
    bad.data[0] = 2;
    let mut accounts = vec![rent_account(), bad];
    assert_eq!(
        Processor::process(&program_id, &mut accounts, &inx),
        Err(Error::InvalidAccountData)
    );
    let mut accounts = vec![rent_account(), empty_slot(key(1), 64)];
    assert_eq!(
        Processor::process(&program_id, &mut accounts, &inx),
        Err(Error::InvalidAccountData)
    );
}

#[test]
fn unstake_and_repay_are_unrecognized() {
    let program_id = key(9);
    let mut accounts = vec![rent_account(), empty_slot(key(1), 81)];
    let unstake = encode_instruction(&Instruction::Unstake { amount: 5 });
    assert_eq!(
        Processor::process(&program_id, &mut accounts, &unstake),
        Err(Error::InvalidInstructionData)
    );
    let repay = encode_instruction(&Instruction::Repay { amount: 5 });
    assert_eq!(
        Processor::process(&program_id, &mut accounts, &repay),
        Err(Error::InvalidInstructionData)
    );
    let garbage = vec![200u8, 1, 2, 3];
    assert_eq!(
        Processor::process(&program_id, &mut accounts, &garbage),
        Err(Error::InvalidInstructionData)
    );
}
