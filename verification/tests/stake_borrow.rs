use debt_vault::authority::expected_program_account_pubkey;
use debt_vault::authority::minter_role;
use debt_vault::borsh_state::BorshState;
use debt_vault::effects::TokenEffect;
use debt_vault::error::Error;
use debt_vault::instruction::Instruction;
use debt_vault::instruction::encode_instruction;
use debt_vault::processor::Processor;
use debt_vault::state::Account;
use debt_vault::state::DebtType;
use debt_vault::state::PublicKey;
use debt_vault::state::Vault;
use debt_vault::state::VaultType;

fn key(n: u8) -> PublicKey {
    let mut v = vec![0u8; 32];
    v[0] = n;
    v[1] = 0xbb;
    PublicKey::from_bytes(&v).unwrap()
}

fn plain(k: PublicKey) -> Account {
    Account { key: k, lamports: 0, data: vec![] }
}

fn slot<T: BorshState>(k: PublicKey, x: &T) -> Account {
    Account { key: k, lamports: 0, data: x.encode() }
}

fn stake_accounts(vault_type: &VaultType, vault: &Vault) -> Vec<Account> {
    vec![
        plain(key(50)),
        plain(key(51)),
        plain(key(52)),
        plain(vault_type.collateral_token_holder),
        slot(key(20), vault_type),
        slot(key(21), vault),
    ]
}

fn base_vault_type() -> VaultType {
    VaultType {
        is_initialized: true,
        debt_type: key(10),
        collateral_token: key(11),
        collateral_token_holder: key(12),
        price_oracle: key(13),
    }
}

fn base_vault() -> Vault {
    Vault {
        is_initialized: true,
        vault_type: key(20),
        owner: key(30),
        debt_amount: 0,
        collateral_amount: 100,
    }
}

fn stake_inx(amount: u64) -> Vec<u8> {
    encode_instruction(&Instruction::Stake { amount, collateral_holder_nonce: 0 })
}

#[test]
fn stake_happy_path_transfers_and_grows_collateral() {
    let program_id = key(9);
    let mut accounts = stake_accounts(&base_vault_type(), &base_vault());
    let r = Processor::process(&program_id, &mut accounts, &stake_inx(25));
    assert_eq!(
        r,
        Ok(vec![TokenEffect::Transfer {
            from: key(51),
            to: key(12),
            authority: key(52),
            amount: 25,
        }])
    );
    let stored = Vault::decode(&accounts[5].data).unwrap();
    assert_eq!(stored.collateral_amount, 125);
    assert_eq!(stored.debt_amount, 0);
}

#[test]
fn stake_rejects_uninitialized_entities() {
    let program_id = key(9);
    let mut vt = base_vault_type();
    vt.is_initialized = false;
    let mut accounts = stake_accounts(&vt, &base_vault());
    assert_eq!(
        Processor::process(&program_id, &mut accounts, &stake_inx(1)),
        Err(Error::UninitializedAccount)
    );

    let mut vault = base_vault();
    vault.is_initialized = false;
    let mut accounts = stake_accounts(&base_vault_type(), &vault);
    let before = accounts[5].data.clone();
    assert_eq!(
        Processor::process(&program_id, &mut accounts, &stake_inx(1)),
        Err(Error::UninitializedAccount)
    );
    assert_eq!(accounts[5].data, before);
}

#[test]
fn stake_rejects_vault_type_mismatch() {
    let program_id = key(9);
    let mut vault = base_vault();
    vault.vault_type = key(99);
    let mut accounts = stake_accounts(&base_vault_type(), &vault);
    let before = accounts[5].data.clone();
    assert_eq!(
        Processor::process(&program_id, &mut accounts, &stake_inx(1)),
        Err(Error::VaultTypeMismatch)
    );
    assert_eq!(accounts[5].data, before);
}

#[test]
fn stake_rejects_collateral_holder_mismatch() {
    let program_id = key(9);
    let mut accounts = stake_accounts(&base_vault_type(), &base_vault());
    accounts[3] = plain(key(98));
    assert_eq!(
        Processor::process(&program_id, &mut accounts, &stake_inx(1)),
        Err(Error::CollateralHolderAccountMismatch)
    );
}

#[test]
fn stake_overflow_leaves_collateral_unchanged() {
    let program_id = key(9);
    let mut vault = base_vault();
    vault.collateral_amount = u64::MAX;
    let mut accounts = stake_accounts(&base_vault_type(), &vault);
    for amount in [1u64, 2, 100, u64::MAX] {
        assert_eq!(
            Processor::process(&program_id, &mut accounts, &stake_inx(amount)),
            Err(Error::Overflow)
        );
        assert_eq!(Vault::decode(&accounts[5].data).unwrap().collateral_amount, u64::MAX);
    }
}

#[test]
fn stake_rejects_short_account_list() {
    let program_id = key(9);
    let mut accounts = stake_accounts(&base_vault_type(), &base_vault());
    accounts.truncate(5);
    assert_eq!(
        Processor::process(&program_id, &mut accounts, &stake_inx(1)),
        Err(Error::NotEnoughAccountKeys)
    );
}

fn find_nonce(program_id: &PublicKey, parent: &PublicKey) -> (u8, PublicKey) {
    let role = minter_role();
    for nonce in 0u8..=255 {
        if let Ok(k) = expected_program_account_pubkey(program_id, parent, &role, nonce) {
            return (nonce, k);
        }
    }
    panic!("no valid nonce");
}

struct BorrowSetup {
    program_id: PublicKey,
    accounts: Vec<Account>,
    nonce: u8,
    minter: PublicKey,
}

fn borrow_setup() -> BorrowSetup {
    let program_id = key(9);
    let debt_token = key(1);
    let owner = key(30);
    let debt_type_key = key(10);
    let vault_type_key = key(20);
    let (nonce, minter) = find_nonce(&program_id, &debt_type_key);
    let debt_type = DebtType { is_initialized: true, debt_token, owner: key(2) };
    let vault_type = VaultType {
        is_initialized: true,
        debt_type: debt_type_key,
        collateral_token: key(11),
        collateral_token_holder: key(12),
        price_oracle: key(13),
    };
    let vault = Vault {
        is_initialized: true,
        vault_type: vault_type_key,
        owner,
        debt_amount: 0,
        collateral_amount: 100,
    };
    let accounts = vec![
        plain(key(50)),
        plain(debt_token),
        plain(minter),
        plain(key(53)),
        slot(debt_type_key, &debt_type),
        slot(vault_type_key, &vault_type),
        slot(key(21), &vault),
        plain(owner),
        plain(key(13)),
    ];
    BorrowSetup { program_id, accounts, nonce, minter }
}

fn borrow_inx(amount: u64, nonce: u8) -> Vec<u8> {
    encode_instruction(&Instruction::Borrow { amount, debt_minter_nonce: nonce })
}

#[test]
fn borrow_happy_path_mints_and_grows_debt() {
    let mut s = borrow_setup();
    let r = Processor::process(&s.program_id, &mut s.accounts, &borrow_inx(10, s.nonce));
    assert_eq!(
        r,
        Ok(vec![TokenEffect::MintTo {
            mint: key(1),
            destination: key(53),
            authority: s.minter,
            authority_parent: key(10),
            authority_nonce: s.nonce,
            amount: 10,
        }])
    );
    let stored = Vault::decode(&s.accounts[6].data).unwrap();
    assert_eq!(stored.debt_amount, 10);
    assert_eq!(stored.collateral_amount, 100);
}

#[test]
fn borrow_rejects_invalid_debt_token() {
    let mut s = borrow_setup();
    s.accounts[1] = plain(key(77));
    assert_eq!(
        Processor::process(&s.program_id, &mut s.accounts, &borrow_inx(10, s.nonce)),
        Err(Error::InvalidDebtToken)
    );
}

#[test]
fn borrow_rejects_debt_type_mismatch() {
    let mut s = borrow_setup();
    let mut vault_type = VaultType::decode(&s.accounts[5].data).unwrap();
    vault_type.debt_type = key(78);
    s.accounts[5].data = vault_type.encode();
    assert_eq!(
        Processor::process(&s.program_id, &mut s.accounts, &borrow_inx(10, s.nonce)),
        Err(Error::DebtTypeMismatch)
    );
}

#[test]
fn borrow_rejects_invalid_price_oracle() {
    let mut s = borrow_setup();
    s.accounts[8] = plain(key(79));
    assert_eq!(
        Processor::process(&s.program_id, &mut s.accounts, &borrow_inx(10, s.nonce)),
        Err(Error::InvalidPriceOracle)
    );
}

#[test]
fn borrow_rejects_vault_type_mismatch() {
    let mut s = borrow_setup();
    let mut vault = Vault::decode(&s.accounts[6].data).unwrap();
    vault.vault_type = key(80);
    s.accounts[6].data = vault.encode();
    assert_eq!(
        Processor::process(&s.program_id, &mut s.accounts, &borrow_inx(10, s.nonce)),
        Err(Error::VaultTypeMismatch)
    );
}

#[test]
fn borrow_rejects_owner_mismatch() {
    let mut s = borrow_setup();
    s.accounts[7] = plain(key(81));
    assert_eq!(
        Processor::process(&s.program_id, &mut s.accounts, &borrow_inx(10, s.nonce)),
        Err(Error::OwnerMismatch)
    );
}

#[test]
fn borrow_rejects_wrong_minter_account() {
    let mut s = borrow_setup();
    s.accounts[2] = plain(key(82));
    let before = s.accounts[6].data.clone();
    assert_eq!(
        Processor::process(&s.program_id, &mut s.accounts, &borrow_inx(10, s.nonce)),
        Err(Error::UnexpectedProgramAccount)
    );
    assert_eq!(s.accounts[6].data, before);
}

#[test]
fn borrow_rejects_uninitialized_entities() {
    let mut s = borrow_setup();
    let mut debt_type = DebtType::decode(&s.accounts[4].data).unwrap();
    debt_type.is_initialized = false;
    s.accounts[4].data = debt_type.encode();
    assert_eq!(
        Processor::process(&s.program_id, &mut s.accounts, &borrow_inx(10, s.nonce)),
        Err(Error::UninitializedAccount)
    );

    let mut s = borrow_setup();
    let mut vault = Vault::decode(&s.accounts[6].data).unwrap();
    vault.is_initialized = false;
    s.accounts[6].data = vault.encode();
    assert_eq!(
        Processor::process(&s.program_id, &mut s.accounts, &borrow_inx(10, s.nonce)),
        Err(Error::UninitializedAccount)
    );
}

#[test]
fn borrow_overflow_leaves_debt_unchanged() {
    let mut s = borrow_setup();
    let mut vault = Vault::decode(&s.accounts[6].data).unwrap();
    vault.debt_amount = u64::MAX;
    s.accounts[6].data = vault.encode();
    assert_eq!(
        Processor::process(&s.program_id, &mut s.accounts, &borrow_inx(1, s.nonce)),
        Err(Error::Overflow)
    );
    assert_eq!(Vault::decode(&s.accounts[6].data).unwrap().debt_amount, u64::MAX);
}
