use debt_vault::borsh_state::BorshState;
use debt_vault::state::DebtType;
use debt_vault::state::PublicKey;
use debt_vault::state::Vault;
use debt_vault::state::VaultType;

fn key(n: u8) -> PublicKey {
    let mut v = vec![0u8; 32];
    v[0] = n;
    PublicKey::from_bytes(&v).unwrap()
}

#[test]
fn state_test_packed_len() {
    let debt_type = DebtType { is_initialized: false, debt_token: key(1), owner: key(2) };
    println!("DebtType len: {}", debt_type.encode().len());
    let vault_type = VaultType {
        is_initialized: false,
        debt_type: key(1),
        collateral_token: key(2),
        collateral_token_holder: key(3),
        price_oracle: key(4),
    };
    println!("VaultType len: {}", vault_type.encode().len());
    let vault = Vault {
        is_initialized: false,
        vault_type: key(1),
        owner: key(2),
        debt_amount: 0,
        collateral_amount: 0,
    };
    println!("Vault len: {}", vault.encode().len());
}

#[test]
fn processor_test_packed_len() {
    let vault_type = VaultType {
        is_initialized: false,
        debt_type: key(1),
        collateral_token: key(2),
        collateral_token_holder: key(3),
        price_oracle: key(4),
    };
    println!("VaultType len: {}", vault_type.encode().len());
}
