//! The instruction processor: one validation-and-effect routine per
//! instruction variant, dispatched after decoding.  Each routine validates
//! every relationship between the supplied accounts and the persisted state
//! before mutating anything; a failed check aborts the whole call with a
//! typed error and every account unchanged.  A successful call rewrites
//! exactly one storage slot and reports the token effects the host must
//! perform.

use vstd::prelude::*;
use crate::authority::derived_address;
use crate::authority::expected_program_account_pubkey;
use crate::authority::minter_role;
use crate::authority::spec_minter_role;
use crate::borsh_state::InitBorshState;
use crate::borsh_state::init_uninitialized;
use crate::borsh_state::load_initialized;
use crate::borsh_state::save;
use crate::borsh_state::save_exempt;
use crate::borsh_state::spec_init_uninitialized;
use crate::borsh_state::spec_load_initialized;
use crate::borsh_state::spec_save;
use crate::borsh_state::spec_save_exempt;
use crate::effects::TokenEffect;
use crate::error::Error;
use crate::instruction::Instruction;
use crate::instruction::decode_instruction;
use crate::instruction::spec_dec_instruction;
use crate::state::Account;
use crate::state::AccountV;
use crate::state::DebtType;
use crate::state::Faucet;
use crate::state::PublicKey;
use crate::state::Vault;
use crate::state::VaultType;
use crate::state::lemma_key_view_injective;
use crate::sysvar::RentRule;
use crate::sysvar::get_clock;
use crate::sysvar::get_rent;
use crate::sysvar::spec_get_clock;
use crate::sysvar::spec_get_rent;

verus! {

/// The mathematical value of a call's outcome: the effects on success, or
/// the typed error.
pub open spec fn spec_result_of(r: Result<Vec<TokenEffect>, Error>) -> Result<
    Seq<TokenEffect>,
    Error,
> {
    match r {
        Ok(v) => Ok(v@),
        Err(e) => Err(e),
    }
}

/// One init instruction: resolve the rent rule at position 0 and the target
/// slot at position 1 (`arity` names how many accounts the variant needs),
/// demand the slot uninitialized, and persist the freshly built record with
/// the rent-checked save.  No token effects.
pub open spec fn spec_init_step<T: InitBorshState>(
    accounts: Seq<AccountV>,
    arity: int,
    fresh: T,
) -> (Seq<AccountV>, Result<Seq<TokenEffect>, Error>) {
    match spec_get_rent(accounts, 0) {
        Err(e) => (accounts, Err(e)),
        Ok(rule) => if accounts.len() < arity {
            (accounts, Err(Error::NotEnoughAccountKeys))
        } else {
            match spec_init_uninitialized::<T>(accounts[1].data) {
                Err(e) => (accounts, Err(e)),
                Ok(_prev) => match spec_save_exempt::<T>(fresh, accounts[1], rule) {
                    Err(e) => (accounts, Err(e)),
                    Ok(acc2) => (accounts.update(1, acc2), Ok(Seq::<TokenEffect>::empty())),
                },
            }
        },
    }
}

/// Stake: load the vault type (position 4) and the vault (position 5), both
/// already initialized; demand the vault's stored `vault_type` equal the
/// supplied vault type account and the vault type's stored escrow equal the
/// supplied escrow account (position 3); transfer `amount` of collateral
/// from the caller's token account (1), authorized by the caller's signer
/// (2), into the escrow; and add `amount` to the vault's collateral,
/// failing the whole call on overflow.
pub open spec fn spec_stake_step(accounts: Seq<AccountV>, amount: u64, nonce: u8) -> (
    Seq<AccountV>,
    Result<Seq<TokenEffect>, Error>,
) {
    if accounts.len() < 6 {
        (accounts, Err(Error::NotEnoughAccountKeys))
    } else {
        match spec_load_initialized::<VaultType>(accounts[4].data) {
            Err(e) => (accounts, Err(e)),
            Ok(vault_type) => match spec_load_initialized::<Vault>(accounts[5].data) {
                Err(e) => (accounts, Err(e)),
                Ok(vault) => if vault.vault_type != accounts[4].key {
                    (accounts, Err(Error::VaultTypeMismatch))
                } else if vault_type.collateral_token_holder != accounts[3].key {
                    (accounts, Err(Error::CollateralHolderAccountMismatch))
                } else if vault.collateral_amount + amount > u64::MAX {
                    (accounts, Err(Error::Overflow))
                } else {
                    let vault2 = Vault {
                        collateral_amount: (vault.collateral_amount + amount) as u64,
                        ..vault
                    };
                    match spec_save::<Vault>(vault2, accounts[5]) {
                        Err(e) => (accounts, Err(e)),
                        Ok(acc2) => (
                            accounts.update(5, acc2),
                            Ok(
                                seq![
                                    TokenEffect::Transfer {
                                        from: accounts[1].key,
                                        to: accounts[3].key,
                                        authority: accounts[2].key,
                                        amount,
                                    },
                                ],
                            ),
                        ),
                    }
                },
            },
        }
    }
}

/// Borrow: load the debt type (4), the vault type (5) and the vault (6),
/// all already initialized.  No debt-ceiling or oracle-based limit is
/// checked yet: the oracle account is only verified against the vault
/// type's stored reference.  Demand, in order, that the debt type's stored
/// token equal the supplied debt token account (1), the vault type's stored
/// debt type equal the supplied debt type account, the vault type's stored
/// oracle equal the supplied oracle account (8), the vault's stored vault
/// type equal the supplied vault type account, and the vault's stored owner
/// equal the supplied signer (7); recompute the debt-minting authority from
/// the debt type's own address and demand it equal the supplied minter (2);
/// mint `amount` of the debt token to the receiver (3) under that
/// authority; and add `amount` to the vault's debt, failing the whole call
/// on overflow.
pub open spec fn spec_borrow_step(
    program_id: PublicKey,
    accounts: Seq<AccountV>,
    amount: u64,
    nonce: u8,
) -> (Seq<AccountV>, Result<Seq<TokenEffect>, Error>) {
    if accounts.len() < 9 {
        (accounts, Err(Error::NotEnoughAccountKeys))
    } else {
        match spec_load_initialized::<DebtType>(accounts[4].data) {
            Err(e) => (accounts, Err(e)),
            Ok(debt_type) => match spec_load_initialized::<VaultType>(accounts[5].data) {
                Err(e) => (accounts, Err(e)),
                Ok(vault_type) => match spec_load_initialized::<Vault>(accounts[6].data) {
                    Err(e) => (accounts, Err(e)),
                    Ok(vault) => if debt_type.debt_token != accounts[1].key {
                        (accounts, Err(Error::InvalidDebtToken))
                    } else if vault_type.debt_type != accounts[4].key {
                        (accounts, Err(Error::DebtTypeMismatch))
                    } else if vault_type.price_oracle != accounts[8].key {
                        (accounts, Err(Error::InvalidPriceOracle))
                    } else if vault.vault_type != accounts[5].key {
                        (accounts, Err(Error::VaultTypeMismatch))
                    } else if vault.owner != accounts[7].key {
                        (accounts, Err(Error::OwnerMismatch))
                    } else {
                        match derived_address(program_id@, accounts[4].key@, spec_minter_role(), nonce) {
                            None => (accounts, Err(Error::InvalidSeeds)),
                            Some(minter) => if minter != accounts[2].key@ {
                                (accounts, Err(Error::UnexpectedProgramAccount))
                            } else if vault.debt_amount + amount > u64::MAX {
                                (accounts, Err(Error::Overflow))
                            } else {
                                let vault2 = Vault {
                                    debt_amount: (vault.debt_amount + amount) as u64,
                                    ..vault
                                };
                                match spec_save::<Vault>(vault2, accounts[6]) {
                                    Err(e) => (accounts, Err(e)),
                                    Ok(acc2) => (
                                        accounts.update(6, acc2),
                                        Ok(
                                            seq![
                                                TokenEffect::MintTo {
                                                    mint: accounts[1].key,
                                                    destination: accounts[3].key,
                                                    authority: accounts[2].key,
                                                    authority_parent: accounts[4].key,
                                                    authority_nonce: nonce,
                                                    amount,
                                                },
                                            ],
                                        ),
                                    ),
                                }
                            },
                        }
                    },
                },
            },
        }
    }
}

/// Drip: read the logical clock (1), load the faucet (2), already
/// initialized; recompute the faucet-minting authority from the faucet's
/// own address and demand it equal the supplied minter (4); mint the
/// faucet's fixed `config.amount` of its stored token to the receiver (5)
/// under that authority; add that amount to `amount_supplied`, failing the
/// whole call on overflow; and record the clock value in `updated_at`.
/// `updated_at` is recorded for rate-limiting, but no rate limit is
/// enforced yet: a drip succeeds whatever the previous clock value was.
pub open spec fn spec_drip_step(program_id: PublicKey, accounts: Seq<AccountV>, nonce: u8) -> (
    Seq<AccountV>,
    Result<Seq<TokenEffect>, Error>,
) {
    if accounts.len() < 6 {
        (accounts, Err(Error::NotEnoughAccountKeys))
    } else {
        match spec_get_clock(accounts, 1) {
            Err(e) => (accounts, Err(e)),
            Ok(slot) => match spec_load_initialized::<Faucet>(accounts[2].data) {
                Err(e) => (accounts, Err(e)),
                Ok(faucet) => match derived_address(
                    program_id@,
                    accounts[2].key@,
                    spec_minter_role(),
                    nonce,
                ) {
                    None => (accounts, Err(Error::InvalidSeeds)),
                    Some(minter) => if minter != accounts[4].key@ {
                        (accounts, Err(Error::UnexpectedProgramAccount))
                    } else if faucet.amount_supplied + faucet.config.amount > u64::MAX {
                        (accounts, Err(Error::FaucetOverflow))
                    } else {
                        let faucet2 = Faucet {
                            amount_supplied: (faucet.amount_supplied + faucet.config.amount) as u64,
                            updated_at: slot,
                            ..faucet
                        };
                        match spec_save::<Faucet>(faucet2, accounts[2]) {
                            Err(e) => (accounts, Err(e)),
                            Ok(acc2) => (
                                accounts.update(2, acc2),
                                Ok(
                                    seq![
                                        TokenEffect::MintTo {
                                            mint: faucet.token,
                                            destination: accounts[5].key,
                                            authority: accounts[4].key,
                                            authority_parent: accounts[2].key,
                                            authority_nonce: nonce,
                                            amount: faucet.config.amount,
                                        },
                                    ],
                                ),
                            ),
                        }
                    },
                },
            },
        }
    }
}

/// The whole call: decode the instruction, then take the variant's step.
/// An undecodable buffer, and the declared-but-unhandled `Unstake` and
/// `Repay` variants, fail as invalid instruction data before any account is
/// touched.  A vault type's init does not yet verify that the caller owns
/// the debt type it references: the reference is persisted as given.  A
/// vault's init carries `debt_amount` and `collateral_amount` over from the
/// uninitialized record the slot decoded to — zero on the host's
/// zero-filled fresh slots.
pub open spec fn spec_process(
    program_id: PublicKey,
    accounts: Seq<AccountV>,
    input: Seq<u8>,
) -> (Seq<AccountV>, Result<Seq<TokenEffect>, Error>) {
    match spec_dec_instruction(input) {
        None => (accounts, Err(Error::InvalidInstructionData)),
        Some(instruction) => match instruction {
            Instruction::InitDebtType { debt_token, owner } => spec_init_step::<DebtType>(
                accounts,
                2,
                DebtType { is_initialized: true, debt_token, owner },
            ),
            Instruction::InitVaultType {
                debt_type,
                collateral_token,
                collateral_token_holder,
                price_oracle,
            } => spec_init_step::<VaultType>(
                accounts,
                2,
                VaultType {
                    is_initialized: true,
                    debt_type,
                    collateral_token,
                    collateral_token_holder,
                    price_oracle,
                },
            ),
            Instruction::InitVault { vault_type, owner } => {
                let prev = spec_init_uninitialized::<Vault>(accounts[1].data);
                spec_init_step::<Vault>(
                    accounts,
                    2,
                    Vault {
                        is_initialized: true,
                        vault_type,
                        owner,
                        debt_amount: (prev->Ok_0).debt_amount,
                        collateral_amount: (prev->Ok_0).collateral_amount,
                    },
                )
            },
            Instruction::Stake { amount, collateral_holder_nonce } => spec_stake_step(
                accounts,
                amount,
                collateral_holder_nonce,
            ),
            Instruction::Unstake { amount } => (accounts, Err(Error::InvalidInstructionData)),
            Instruction::Repay { amount } => (accounts, Err(Error::InvalidInstructionData)),
            Instruction::Borrow { amount, debt_minter_nonce } => spec_borrow_step(
                program_id,
                accounts,
                amount,
                debt_minter_nonce,
            ),
            Instruction::InitFaucet { config } => spec_init_step::<Faucet>(
                accounts,
                3,
                Faucet {
                    is_initialized: true,
                    config,
                    amount_supplied: 0,
                    updated_at: 0,
                    token: accounts[2].key,
                },
            ),
            Instruction::Drip { faucet_token_minter_nonce } => spec_drip_step(
                program_id,
                accounts,
                faucet_token_minter_nonce,
            ),
        },
    }
}

/// Initializes the slot at position 1 with a freshly built record, the rent
/// rule having already been resolved from position 0.
fn init_slot<T: InitBorshState>(
    accounts: &mut Vec<Account>,
    rule: RentRule,
    arity: usize,
    fresh: T,
) -> (r: Result<Vec<TokenEffect>, Error>)
    requires
        2 <= arity <= old(accounts)@.len(),
        spec_get_rent(old(accounts).deep_view(), 0) == Ok::<RentRule, Error>(rule),
    ensures
        ({
            let (a2, res) = spec_init_step::<T>(old(accounts).deep_view(), arity as int, fresh);
            final(accounts).deep_view() == a2 && spec_result_of(r) == res
        }),
{
    let ghost a_old = accounts.deep_view();
    match init_uninitialized::<T>(&accounts[1]) {
        Err(e) => {
            return Err(e);
        },
        Ok(_prev) => {},
    }
    let acc = &mut accounts[1];
    let saved = save_exempt::<T>(&fresh, acc, &rule);
    match saved {
        Err(e) => {
            proof {
                assert(accounts.deep_view() =~= a_old);
            }
            Err(e)
        },
        Ok(()) => {
            proof {
                let (a2, res) = spec_init_step::<T>(a_old, arity as int, fresh);
                assert(accounts.deep_view() =~= a2);
            }
            Ok(Vec::new())
        },
    }
}

/// The Stake routine; see `spec_stake_step` for what it enforces.
pub fn process_stake(accounts: &mut Vec<Account>, amount: u64, collateral_holder_nonce: u8) -> (r:
    Result<Vec<TokenEffect>, Error>)
    ensures
        ({
            let (a2, res) = spec_stake_step(
                old(accounts).deep_view(),
                amount,
                collateral_holder_nonce,
            );
            final(accounts).deep_view() == a2 && spec_result_of(r) == res
        }),
{
    let ghost a_old = accounts.deep_view();
    if accounts.len() < 6 {
        return Err(Error::NotEnoughAccountKeys);
    }
    let vault_type = match load_initialized::<VaultType>(&accounts[4]) {
        Ok(x) => x,
        Err(e) => {
            return Err(e);
        },
    };
    let mut vault = match load_initialized::<Vault>(&accounts[5]) {
        Ok(x) => x,
        Err(e) => {
            return Err(e);
        },
    };
    let from = accounts[1].key;
    let authority = accounts[2].key;
    let to = accounts[3].key;
    if vault.vault_type != accounts[4].key {
        return Err(Error::VaultTypeMismatch);
    }
    if vault_type.collateral_token_holder != to {
        return Err(Error::CollateralHolderAccountMismatch);
    }
    let new_amount = match vault.collateral_amount.checked_add(amount) {
        Some(x) => x,
        None => {
            return Err(Error::Overflow);
        },
    };
    vault.collateral_amount = new_amount;
    let acc = &mut accounts[5];
    let saved = save::<Vault>(&vault, acc);
    match saved {
        Err(e) => {
            proof {
                assert(accounts.deep_view() =~= a_old);
            }
            Err(e)
        },
        Ok(()) => {
            let mut fx: Vec<TokenEffect> = Vec::new();
            fx.push(TokenEffect::Transfer { from, to, authority, amount });
            proof {
                let (a2, res) = spec_stake_step(a_old, amount, collateral_holder_nonce);
                assert(accounts.deep_view() =~= a2);
                assert(fx@ =~= res->Ok_0);
            }
            Ok(fx)
        },
    }
}

/// The Borrow routine; see `spec_borrow_step` for what it enforces.
pub fn process_borrow(
    program_id: &PublicKey,
    accounts: &mut Vec<Account>,
    amount: u64,
    debt_minter_nonce: u8,
) -> (r: Result<Vec<TokenEffect>, Error>)
    ensures
        ({
            let (a2, res) = spec_borrow_step(
                *program_id,
                old(accounts).deep_view(),
                amount,
                debt_minter_nonce,
            );
            final(accounts).deep_view() == a2 && spec_result_of(r) == res
        }),
{
    let ghost a_old = accounts.deep_view();
    if accounts.len() < 9 {
        return Err(Error::NotEnoughAccountKeys);
    }
    let debt_type = match load_initialized::<DebtType>(&accounts[4]) {
        Ok(x) => x,
        Err(e) => {
            return Err(e);
        },
    };
    let vault_type = match load_initialized::<VaultType>(&accounts[5]) {
        Ok(x) => x,
        Err(e) => {
            return Err(e);
        },
    };
    let mut vault = match load_initialized::<Vault>(&accounts[6]) {
        Ok(x) => x,
        Err(e) => {
            return Err(e);
        },
    };
    let debt_token = accounts[1].key;
    let minter = accounts[2].key;
    let receiver = accounts[3].key;
    let debt_type_key = accounts[4].key;
    if debt_type.debt_token != debt_token {
        return Err(Error::InvalidDebtToken);
    }
    if vault_type.debt_type != debt_type_key {
        return Err(Error::DebtTypeMismatch);
    }
    if vault_type.price_oracle != accounts[8].key {
        return Err(Error::InvalidPriceOracle);
    }
    if vault.vault_type != accounts[5].key {
        return Err(Error::VaultTypeMismatch);
    }
    if vault.owner != accounts[7].key {
        return Err(Error::OwnerMismatch);
    }
    let role = minter_role();
    let expected = match expected_program_account_pubkey(
        program_id,
        &debt_type_key,
        &role,
        debt_minter_nonce,
    ) {
        Ok(k) => k,
        Err(e) => {
            return Err(e);
        },
    };
    if expected != minter {
        proof {
            if expected@ == minter@ {
                lemma_key_view_injective(expected, minter);
            }
        }
        return Err(Error::UnexpectedProgramAccount);
    }
    let new_amount = match vault.debt_amount.checked_add(amount) {
        Some(x) => x,
        None => {
            return Err(Error::Overflow);
        },
    };
    vault.debt_amount = new_amount;
    let acc = &mut accounts[6];
    let saved = save::<Vault>(&vault, acc);
    match saved {
        Err(e) => {
            proof {
                assert(accounts.deep_view() =~= a_old);
            }
            Err(e)
        },
        Ok(()) => {
            let mut fx: Vec<TokenEffect> = Vec::new();
            fx.push(
                TokenEffect::MintTo {
                    mint: debt_token,
                    destination: receiver,
                    authority: minter,
                    authority_parent: debt_type_key,
                    authority_nonce: debt_minter_nonce,
                    amount,
                },
            );
            proof {
                let (a2, res) = spec_borrow_step(*program_id, a_old, amount, debt_minter_nonce);
                assert(accounts.deep_view() =~= a2);
                assert(fx@ =~= res->Ok_0);
            }
            Ok(fx)
        },
    }
}

/// The Drip routine; see `spec_drip_step` for what it enforces.
pub fn process_drip(program_id: &PublicKey, accounts: &mut Vec<Account>, nonce: u8) -> (r: Result<
    Vec<TokenEffect>,
    Error,
>)
    ensures
        ({
            let (a2, res) = spec_drip_step(*program_id, old(accounts).deep_view(), nonce);
            final(accounts).deep_view() == a2 && spec_result_of(r) == res
        }),
{
    let ghost a_old = accounts.deep_view();
    if accounts.len() < 6 {
        return Err(Error::NotEnoughAccountKeys);
    }
    let slot = match get_clock(accounts, 1) {
        Ok(x) => x,
        Err(e) => {
            return Err(e);
        },
    };
    let mut faucet = match load_initialized::<Faucet>(&accounts[2]) {
        Ok(x) => x,
        Err(e) => {
            return Err(e);
        },
    };
    let faucet_key = accounts[2].key;
    let minter = accounts[4].key;
    let receiver = accounts[5].key;
    let role = minter_role();
    let expected = match expected_program_account_pubkey(program_id, &faucet_key, &role, nonce) {
        Ok(k) => k,
        Err(e) => {
            return Err(e);
        },
    };
    if expected != minter {
        proof {
            if expected@ == minter@ {
                lemma_key_view_injective(expected, minter);
            }
        }
        return Err(Error::UnexpectedProgramAccount);
    }
    let new_supplied = match faucet.amount_supplied.checked_add(faucet.config.amount) {
        Some(x) => x,
        None => {
            return Err(Error::FaucetOverflow);
        },
    };
    let token = faucet.token;
    let mint_amount = faucet.config.amount;
    faucet.amount_supplied = new_supplied;
    faucet.updated_at = slot;
    let acc = &mut accounts[2];
    let saved = save::<Faucet>(&faucet, acc);
    match saved {
        Err(e) => {
            proof {
                assert(accounts.deep_view() =~= a_old);
            }
            Err(e)
        },
        Ok(()) => {
            let mut fx: Vec<TokenEffect> = Vec::new();
            fx.push(
                TokenEffect::MintTo {
                    mint: token,
                    destination: receiver,
                    authority: minter,
                    authority_parent: faucet_key,
                    authority_nonce: nonce,
                    amount: mint_amount,
                },
            );
            proof {
                let (a2, res) = spec_drip_step(*program_id, a_old, nonce);
                assert(accounts.deep_view() =~= a2);
                assert(fx@ =~= res->Ok_0);
            }
            Ok(fx)
        },
    }
}

/// The instruction processor.
pub struct Processor {}

impl Processor {
    /// Processes one call: decodes `input`, dispatches to the variant's
    /// routine, and returns the token effects the host must perform, with
    /// every account unchanged but the one slot the variant persists.
    pub fn process(program_id: &PublicKey, accounts: &mut Vec<Account>, input: &Vec<u8>) -> (r:
        Result<Vec<TokenEffect>, Error>)
        ensures
            ({
                let (a2, res) = spec_process(*program_id, old(accounts).deep_view(), input@);
                final(accounts).deep_view() == a2 && spec_result_of(r) == res
            }),
    {
        let instruction = match decode_instruction(input) {
            Ok(i) => i,
            Err(e) => {
                return Err(e);
            },
        };
        match instruction {
            Instruction::InitDebtType { debt_token, owner } => {
                let rule = match get_rent(accounts, 0) {
                    Ok(x) => x,
                    Err(e) => {
                        return Err(e);
                    },
                };
                if accounts.len() < 2 {
                    return Err(Error::NotEnoughAccountKeys);
                }
                init_slot::<DebtType>(
                    accounts,
                    rule,
                    2,
                    DebtType { is_initialized: true, debt_token, owner },
                )
            },
            Instruction::InitVaultType {
                debt_type,
                collateral_token,
                collateral_token_holder,
                price_oracle,
            } => {
                let rule = match get_rent(accounts, 0) {
                    Ok(x) => x,
                    Err(e) => {
                        return Err(e);
                    },
                };
                if accounts.len() < 2 {
                    return Err(Error::NotEnoughAccountKeys);
                }
                init_slot::<VaultType>(
                    accounts,
                    rule,
                    2,
                    VaultType {
                        is_initialized: true,
                        debt_type,
                        collateral_token,
                        collateral_token_holder,
                        price_oracle,
                    },
                )
            },
            Instruction::InitVault { vault_type, owner } => {
                let rule = match get_rent(accounts, 0) {
                    Ok(x) => x,
                    Err(e) => {
                        return Err(e);
                    },
                };
                if accounts.len() < 2 {
                    return Err(Error::NotEnoughAccountKeys);
                }
                let prev = match init_uninitialized::<Vault>(&accounts[1]) {
                    Ok(p) => p,
                    Err(e) => {
                        return Err(e);
                    },
                };
                init_slot::<Vault>(
                    accounts,
                    rule,
                    2,
                    Vault {
                        is_initialized: true,
                        vault_type,
                        owner,
                        debt_amount: prev.debt_amount,
                        collateral_amount: prev.collateral_amount,
                    },
                )
            },
            Instruction::Stake { amount, collateral_holder_nonce } => {
                process_stake(accounts, amount, collateral_holder_nonce)
            },
            Instruction::Unstake { amount: _ } => Err(Error::InvalidInstructionData),
            Instruction::Repay { amount: _ } => Err(Error::InvalidInstructionData),
            Instruction::Borrow { amount, debt_minter_nonce } => {
                process_borrow(program_id, accounts, amount, debt_minter_nonce)
            },
            Instruction::InitFaucet { config } => {
                let rule = match get_rent(accounts, 0) {
                    Ok(x) => x,
                    Err(e) => {
                        return Err(e);
                    },
                };
                if accounts.len() < 3 {
                    return Err(Error::NotEnoughAccountKeys);
                }
                let token = accounts[2].key;
                init_slot::<Faucet>(
                    accounts,
                    rule,
                    3,
                    Faucet {
                        is_initialized: true,
                        config,
                        amount_supplied: 0,
                        updated_at: 0,
                        token,
                    },
                )
            },
            Instruction::Drip { faucet_token_minter_nonce } => {
                process_drip(program_id, accounts, faucet_token_minter_nonce)
            },
        }
    }
}

} // verus!
