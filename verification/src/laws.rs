//! The laws of the processor, stated once over its functional
//! specification and proved for every input.

use vstd::prelude::*;
use crate::authority::derived_address;
use crate::authority::spec_minter_role;
use crate::borsh_state::BorshState;
use crate::borsh_state::InitBorshState;
use crate::borsh_state::spec_load_initialized;
use crate::effects::TokenEffect;
use crate::error::Error;
use crate::processor::spec_borrow_step;
use crate::processor::spec_drip_step;
use crate::processor::spec_init_step;
use crate::processor::spec_stake_step;
use crate::state::AccountV;
use crate::state::DebtType;
use crate::state::Faucet;
use crate::state::Vault;
use crate::state::VaultType;
use crate::sysvar::spec_get_clock;

verus! {

/// Init idempotency-rejection: once an init step has succeeded on a slot,
/// any second init step of the same entity type on the resulting accounts
/// fails with "already initialized" and leaves every account unchanged.
pub proof fn lemma_init_idempotency_rejection<T: InitBorshState>(
    accounts: Seq<AccountV>,
    arity: int,
    fresh: T,
    fresh2: T,
)
    requires
        2 <= arity,
        fresh.spec_initialized(),
        spec_init_step::<T>(accounts, arity, fresh).1 is Ok,
    ensures
        ({
            let a2 = spec_init_step::<T>(accounts, arity, fresh).0;
            spec_init_step::<T>(a2, arity, fresh2) == (
                a2,
                Err::<Seq<TokenEffect>, Error>(Error::AccountAlreadyInitialized),
            )
        }),
{
    fresh.lemma_round_trip();
    fresh.lemma_enc_len();
}

/// Uninitialized-access rejection, Stake: a stake whose vault type slot, or
/// whose vault slot (the vault type being live), decodes to a record whose
/// initialization flag is clear fails with "uninitialized", every account
/// unchanged.
pub proof fn lemma_stake_uninitialized_rejection(accounts: Seq<AccountV>, amount: u64, nonce: u8)
    requires
        accounts.len() >= 6,
        (VaultType::spec_dec(accounts[4].data) matches Some(vt) && !vt.spec_initialized()) || (
        spec_load_initialized::<VaultType>(accounts[4].data) is Ok && (Vault::spec_dec(
            accounts[5].data,
        ) matches Some(v) && !v.spec_initialized())),
    ensures
        spec_stake_step(accounts, amount, nonce) == (
            accounts,
            Err::<Seq<TokenEffect>, Error>(Error::UninitializedAccount),
        ),
{
}

/// Uninitialized-access rejection, Borrow: a borrow whose debt type slot,
/// vault type slot or vault slot (each earlier slot being live) decodes to
/// a record whose initialization flag is clear fails with "uninitialized",
/// every account unchanged.
pub proof fn lemma_borrow_uninitialized_rejection(
    program_id: crate::state::PublicKey,
    accounts: Seq<AccountV>,
    amount: u64,
    nonce: u8,
)
    requires
        accounts.len() >= 9,
        (DebtType::spec_dec(accounts[4].data) matches Some(dt) && !dt.spec_initialized()) || (
        spec_load_initialized::<DebtType>(accounts[4].data) is Ok && ((VaultType::spec_dec(
            accounts[5].data,
        ) matches Some(vt) && !vt.spec_initialized()) || (spec_load_initialized::<VaultType>(
            accounts[5].data,
        ) is Ok && (Vault::spec_dec(accounts[6].data) matches Some(v)
            && !v.spec_initialized())))),
    ensures
        spec_borrow_step(program_id, accounts, amount, nonce) == (
            accounts,
            Err::<Seq<TokenEffect>, Error>(Error::UninitializedAccount),
        ),
{
}

/// Uninitialized-access rejection, Drip: a drip whose faucet slot decodes
/// to a record whose initialization flag is clear fails with
/// "uninitialized", every account unchanged.
pub proof fn lemma_drip_uninitialized_rejection(
    program_id: crate::state::PublicKey,
    accounts: Seq<AccountV>,
    nonce: u8,
)
    requires
        accounts.len() >= 6,
        spec_get_clock(accounts, 1) is Ok,
        Faucet::spec_dec(accounts[2].data) matches Some(f) && !f.spec_initialized(),
    ensures
        spec_drip_step(program_id, accounts, nonce) == (
            accounts,
            Err::<Seq<TokenEffect>, Error>(Error::UninitializedAccount),
        ),
{
}

/// Cross-reference enforcement, first half: a stake whose vault's stored
/// vault type is not the supplied vault type account fails with the vault
/// type mismatch error, every account unchanged.
pub proof fn lemma_stake_vault_type_mismatch(accounts: Seq<AccountV>, amount: u64, nonce: u8)
    requires
        accounts.len() >= 6,
        spec_load_initialized::<VaultType>(accounts[4].data) is Ok,
        spec_load_initialized::<Vault>(accounts[5].data) matches Ok(v) && v.vault_type
            != accounts[4].key,
    ensures
        spec_stake_step(accounts, amount, nonce) == (
            accounts,
            Err::<Seq<TokenEffect>, Error>(Error::VaultTypeMismatch),
        ),
{
}

/// Cross-reference enforcement, second half: a stake whose vault type's
/// stored escrow holder is not the supplied escrow account fails with the
/// holder mismatch error, every account unchanged.
pub proof fn lemma_stake_collateral_holder_mismatch(accounts: Seq<AccountV>, amount: u64, nonce: u8)
    requires
        accounts.len() >= 6,
        spec_load_initialized::<VaultType>(accounts[4].data) matches Ok(vt)
            && vt.collateral_token_holder != accounts[3].key,
        spec_load_initialized::<Vault>(accounts[5].data) matches Ok(v) && v.vault_type
            == accounts[4].key,
    ensures
        spec_stake_step(accounts, amount, nonce) == (
            accounts,
            Err::<Seq<TokenEffect>, Error>(Error::CollateralHolderAccountMismatch),
        ),
{
}

/// Overflow safety: a stake of any positive amount into a vault whose
/// collateral counter is already at the 64-bit maximum fails with the
/// overflow error, every account (and so the counter) unchanged.
pub proof fn lemma_stake_overflow_safety(accounts: Seq<AccountV>, amount: u64, nonce: u8)
    requires
        accounts.len() >= 6,
        spec_load_initialized::<VaultType>(accounts[4].data) matches Ok(vt)
            && vt.collateral_token_holder == accounts[3].key,
        spec_load_initialized::<Vault>(accounts[5].data) matches Ok(v) && v.vault_type
            == accounts[4].key && v.collateral_amount == u64::MAX,
        amount > 0,
    ensures
        spec_stake_step(accounts, amount, nonce) == (
            accounts,
            Err::<Seq<TokenEffect>, Error>(Error::Overflow),
        ),
{
}

/// Derived-authority enforcement: for every nonce, a drip whose supplied
/// minter account is not the address derived from the faucet's own address,
/// the minter role and that nonce fails with the unexpected-program-account
/// error, every account unchanged.
pub proof fn lemma_drip_derived_authority_enforcement(
    program_id: crate::state::PublicKey,
    accounts: Seq<AccountV>,
    nonce: u8,
)
    requires
        accounts.len() >= 6,
        spec_get_clock(accounts, 1) is Ok,
        spec_load_initialized::<Faucet>(accounts[2].data) is Ok,
        derived_address(program_id@, accounts[2].key@, spec_minter_role(), nonce) matches Some(m)
            && m != accounts[4].key@,
    ensures
        spec_drip_step(program_id, accounts, nonce) == (
            accounts,
            Err::<Seq<TokenEffect>, Error>(Error::UnexpectedProgramAccount),
        ),
{
}

} // verus!
