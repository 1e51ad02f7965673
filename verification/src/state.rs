//! The persisted entities of the protocol and the account model the
//! processor works on.

use vstd::prelude::*;
use vstd::bytes::lemma_auto_spec_u64_to_from_le_bytes;
use vstd::bytes::spec_u64_from_le_bytes;
use vstd::bytes::spec_u64_to_le_bytes;
use crate::borsh_state::BorshState;
use crate::borsh_state::InitBorshState;
use crate::codec::put_bool;
use crate::codec::put_key;
use crate::codec::put_u64;
use crate::codec::read_key;
use crate::codec::read_u64;
use crate::codec::spec_bool_byte;
use crate::error::Error;

verus! {

/// A 32-byte address naming an account or a derived authority.  It is held
/// as four little-endian 64-bit words so that address equality is plain
/// structural equality; its view is the 32-byte sequence itself.
#[derive(Clone, Copy, Debug, PartialEq, Eq, Structural)]
pub struct PublicKey {
    pub w0: u64,
    pub w1: u64,
    pub w2: u64,
    pub w3: u64,
}

impl View for PublicKey {
    type V = Seq<u8>;

    open spec fn view(&self) -> Seq<u8> {
        spec_u64_to_le_bytes(self.w0) + spec_u64_to_le_bytes(self.w1)
            + spec_u64_to_le_bytes(self.w2) + spec_u64_to_le_bytes(self.w3)
    }
}

/// The address whose byte sequence is `d` (the first 32 bytes of it).
pub open spec fn spec_key_of(d: Seq<u8>) -> PublicKey {
    PublicKey {
        w0: spec_u64_from_le_bytes(d.subrange(0, 8)),
        w1: spec_u64_from_le_bytes(d.subrange(8, 16)),
        w2: spec_u64_from_le_bytes(d.subrange(16, 24)),
        w3: spec_u64_from_le_bytes(d.subrange(24, 32)),
    }
}

/// An address views to exactly its 32 bytes, and reading those bytes back
/// yields the same address.
pub proof fn lemma_key_view(k: PublicKey)
    ensures
        k@.len() == 32,
        spec_key_of(k@) == k,
{
    lemma_auto_spec_u64_to_from_le_bytes();
    assert(k@.subrange(0, 8) =~= spec_u64_to_le_bytes(k.w0));
    assert(k@.subrange(8, 16) =~= spec_u64_to_le_bytes(k.w1));
    assert(k@.subrange(16, 24) =~= spec_u64_to_le_bytes(k.w2));
    assert(k@.subrange(24, 32) =~= spec_u64_to_le_bytes(k.w3));
}

/// Reading an address out of 32 bytes and viewing it again yields the bytes.
pub proof fn lemma_key_of_view(d: Seq<u8>)
    requires
        d.len() == 32,
    ensures
        spec_key_of(d)@ == d,
{
    lemma_auto_spec_u64_to_from_le_bytes();
    assert(spec_key_of(d)@ =~= d);
}

/// Two addresses with the same byte sequence are the same address.
pub proof fn lemma_key_view_injective(k1: PublicKey, k2: PublicKey)
    requires
        k1@ == k2@,
    ensures
        k1 == k2,
{
    lemma_key_view(k1);
    lemma_key_view(k2);
}

/// One account reference handed to a call: its address, its balance and the
/// bytes of its storage slot.  The slot is allocated and sized by the host;
/// the processor only ever rewrites the bytes in place.
#[derive(Clone, Debug)]
pub struct Account {
    pub key: PublicKey,
    pub lamports: u64,
    pub data: Vec<u8>,
}

/// The mathematical model of an account.
#[verifier::ext_equal]
pub struct AccountV {
    pub key: PublicKey,
    pub lamports: u64,
    pub data: Seq<u8>,
}

impl View for Account {
    type V = AccountV;

    open spec fn view(&self) -> AccountV {
        AccountV { key: self.key, lamports: self.lamports, data: self.data@ }
    }
}

impl DeepView for Account {
    type V = AccountV;

    open spec fn deep_view(&self) -> AccountV {
        self@
    }
}

impl PublicKey {
    /// Whether this address names the given account.
    pub fn is_account(&self, account: &Account) -> (r: bool)
        ensures
            r == (*self == account.key),
    {
        *self == account.key
    }

    /// The 32 bytes of this address.
    pub fn to_bytes(&self) -> (r: Vec<u8>)
        ensures
            r@ == self@,
    {
        let mut out: Vec<u8> = Vec::new();
        put_u64(&mut out, self.w0);
        put_u64(&mut out, self.w1);
        put_u64(&mut out, self.w2);
        put_u64(&mut out, self.w3);
        proof {
            assert(out@ =~= self@);
        }
        out
    }

    /// The address made of exactly 32 bytes.
    pub fn from_bytes(d: &Vec<u8>) -> (r: Option<PublicKey>)
        ensures
            match r {
                Some(k) => d@.len() == 32 && k == spec_key_of(d@),
                None => d@.len() != 32,
            },
    {
        if d.len() != 32 {
            return None;
        }
        let k = read_key(d, 0);
        proof {
            assert(d@.subrange(0, 32) =~= d@);
        }
        Some(k)
    }
}

/// One mintable debt asset and its governing authority.  Created once by its
/// init instruction; `debt_token` and `owner` never change afterwards.
#[derive(Clone, Copy, Debug, PartialEq, Eq, Structural)]
pub struct DebtType {
    pub is_initialized: bool,
    pub debt_token: PublicKey,
    pub owner: PublicKey,
}

/// Links a collateral asset and its escrow holder account to a debt type.
/// Immutable once initialized.
#[derive(Clone, Copy, Debug, PartialEq, Eq, Structural)]
pub struct VaultType {
    pub is_initialized: bool,
    pub debt_type: PublicKey,
    pub collateral_token: PublicKey,
    pub collateral_token_holder: PublicKey,
    pub price_oracle: PublicKey,
}

/// One user's position under a vault type: staked collateral and minted
/// debt.  Both counters only ever grow by checked addition.
#[derive(Clone, Copy, Debug, PartialEq, Eq, Structural)]
pub struct Vault {
    pub is_initialized: bool,
    pub vault_type: PublicKey,
    pub owner: PublicKey,
    pub debt_amount: u64,
    pub collateral_amount: u64,
}

/// The fixed per-call mint amount of a faucet.
#[derive(Clone, Copy, Debug, PartialEq, Eq, Structural)]
pub struct FaucetConfig {
    pub amount: u64,
}

/// An authority-gated token faucet: every successful drip mints
/// `config.amount` of `token` and records the logical clock in
/// `updated_at`, the hook for a rate limit that is not yet enforced.
#[derive(Clone, Copy, Debug, PartialEq, Eq, Structural)]
pub struct Faucet {
    pub is_initialized: bool,
    pub config: FaucetConfig,
    pub amount_supplied: u64,
    pub updated_at: u64,
    pub token: PublicKey,
}

impl BorshState for DebtType {
    open spec fn spec_enc(self) -> Seq<u8> {
        seq![spec_bool_byte(self.is_initialized)] + self.debt_token@ + self.owner@
    }

    open spec fn spec_dec(d: Seq<u8>) -> Option<DebtType> {
        if d.len() == 65 && (d[0] == 0 || d[0] == 1) {
            Some(
                DebtType {
                    is_initialized: d[0] == 1,
                    debt_token: spec_key_of(d.subrange(1, 33)),
                    owner: spec_key_of(d.subrange(33, 65)),
                },
            )
        } else {
            None
        }
    }

    open spec fn spec_size() -> nat {
        65
    }

    proof fn lemma_enc_len(self) {
        lemma_key_view(self.debt_token);
        lemma_key_view(self.owner);
    }

    proof fn lemma_round_trip(self) {
        lemma_key_view(self.debt_token);
        lemma_key_view(self.owner);
        let d = self.spec_enc();
        assert(d.subrange(1, 33) =~= self.debt_token@);
        assert(d.subrange(33, 65) =~= self.owner@);
    }

    proof fn lemma_decode_canonical(d: Seq<u8>) {
        lemma_key_of_view(d.subrange(1, 33));
        lemma_key_of_view(d.subrange(33, 65));
        assert((Self::spec_dec(d)->Some_0).spec_enc() =~= d);
    }

    fn encode(&self) -> (r: Vec<u8>) {
        let mut out: Vec<u8> = Vec::new();
        put_bool(&mut out, self.is_initialized);
        put_key(&mut out, &self.debt_token);
        put_key(&mut out, &self.owner);
        proof {
            assert(out@ =~= self.spec_enc());
        }
        out
    }

    fn decode(d: &Vec<u8>) -> (r: Result<DebtType, Error>) {
        if d.len() != 65 {
            return Err(Error::InvalidAccountData);
        }
        let b0 = d[0];
        if b0 > 1 {
            return Err(Error::InvalidAccountData);
        }
        Ok(
            DebtType {
                is_initialized: b0 == 1,
                debt_token: read_key(d, 1),
                owner: read_key(d, 33),
            },
        )
    }
}

impl InitBorshState for DebtType {
    open spec fn spec_initialized(self) -> bool {
        self.is_initialized
    }

    fn is_initialized(&self) -> (r: bool) {
        self.is_initialized
    }
}

impl BorshState for VaultType {
    open spec fn spec_enc(self) -> Seq<u8> {
        seq![spec_bool_byte(self.is_initialized)] + self.debt_type@ + self.collateral_token@
            + self.collateral_token_holder@ + self.price_oracle@
    }

    open spec fn spec_dec(d: Seq<u8>) -> Option<VaultType> {
        if d.len() == 129 && (d[0] == 0 || d[0] == 1) {
            Some(
                VaultType {
                    is_initialized: d[0] == 1,
                    debt_type: spec_key_of(d.subrange(1, 33)),
                    collateral_token: spec_key_of(d.subrange(33, 65)),
                    collateral_token_holder: spec_key_of(d.subrange(65, 97)),
                    price_oracle: spec_key_of(d.subrange(97, 129)),
                },
            )
        } else {
            None
        }
    }

    open spec fn spec_size() -> nat {
        129
    }

    proof fn lemma_enc_len(self) {
        lemma_key_view(self.debt_type);
        lemma_key_view(self.collateral_token);
        lemma_key_view(self.collateral_token_holder);
        lemma_key_view(self.price_oracle);
    }

    proof fn lemma_round_trip(self) {
        lemma_key_view(self.debt_type);
        lemma_key_view(self.collateral_token);
        lemma_key_view(self.collateral_token_holder);
        lemma_key_view(self.price_oracle);
        let d = self.spec_enc();
        assert(d.subrange(1, 33) =~= self.debt_type@);
        assert(d.subrange(33, 65) =~= self.collateral_token@);
        assert(d.subrange(65, 97) =~= self.collateral_token_holder@);
        assert(d.subrange(97, 129) =~= self.price_oracle@);
    }

    proof fn lemma_decode_canonical(d: Seq<u8>) {
        lemma_key_of_view(d.subrange(1, 33));
        lemma_key_of_view(d.subrange(33, 65));
        lemma_key_of_view(d.subrange(65, 97));
        lemma_key_of_view(d.subrange(97, 129));
        assert((Self::spec_dec(d)->Some_0).spec_enc() =~= d);
    }

    fn encode(&self) -> (r: Vec<u8>) {
        let mut out: Vec<u8> = Vec::new();
        put_bool(&mut out, self.is_initialized);
        put_key(&mut out, &self.debt_type);
        put_key(&mut out, &self.collateral_token);
        put_key(&mut out, &self.collateral_token_holder);
        put_key(&mut out, &self.price_oracle);
        proof {
            assert(out@ =~= self.spec_enc());
        }
        out
    }

    fn decode(d: &Vec<u8>) -> (r: Result<VaultType, Error>) {
        if d.len() != 129 {
            return Err(Error::InvalidAccountData);
        }
        let b0 = d[0];
        if b0 > 1 {
            return Err(Error::InvalidAccountData);
        }
        Ok(
            VaultType {
                is_initialized: b0 == 1,
                debt_type: read_key(d, 1),
                collateral_token: read_key(d, 33),
                collateral_token_holder: read_key(d, 65),
                price_oracle: read_key(d, 97),
            },
        )
    }
}

impl InitBorshState for VaultType {
    open spec fn spec_initialized(self) -> bool {
        self.is_initialized
    }

    fn is_initialized(&self) -> (r: bool) {
        self.is_initialized
    }
}

impl BorshState for Vault {
    open spec fn spec_enc(self) -> Seq<u8> {
        seq![spec_bool_byte(self.is_initialized)] + self.vault_type@ + self.owner@
            + spec_u64_to_le_bytes(self.debt_amount) + spec_u64_to_le_bytes(self.collateral_amount)
    }

    open spec fn spec_dec(d: Seq<u8>) -> Option<Vault> {
        if d.len() == 81 && (d[0] == 0 || d[0] == 1) {
            Some(
                Vault {
                    is_initialized: d[0] == 1,
                    vault_type: spec_key_of(d.subrange(1, 33)),
                    owner: spec_key_of(d.subrange(33, 65)),
                    debt_amount: spec_u64_from_le_bytes(d.subrange(65, 73)),
                    collateral_amount: spec_u64_from_le_bytes(d.subrange(73, 81)),
                },
            )
        } else {
            None
        }
    }

    open spec fn spec_size() -> nat {
        81
    }

    proof fn lemma_enc_len(self) {
        lemma_key_view(self.vault_type);
        lemma_key_view(self.owner);
        lemma_auto_spec_u64_to_from_le_bytes();
    }

    proof fn lemma_round_trip(self) {
        lemma_key_view(self.vault_type);
        lemma_key_view(self.owner);
        lemma_auto_spec_u64_to_from_le_bytes();
        let d = self.spec_enc();
        assert(d.subrange(1, 33) =~= self.vault_type@);
        assert(d.subrange(33, 65) =~= self.owner@);
        assert(d.subrange(65, 73) =~= spec_u64_to_le_bytes(self.debt_amount));
        assert(d.subrange(73, 81) =~= spec_u64_to_le_bytes(self.collateral_amount));
    }

    proof fn lemma_decode_canonical(d: Seq<u8>) {
        lemma_key_of_view(d.subrange(1, 33));
        lemma_key_of_view(d.subrange(33, 65));
        lemma_auto_spec_u64_to_from_le_bytes();
        assert((Self::spec_dec(d)->Some_0).spec_enc() =~= d);
    }

    fn encode(&self) -> (r: Vec<u8>) {
        let mut out: Vec<u8> = Vec::new();
        put_bool(&mut out, self.is_initialized);
        put_key(&mut out, &self.vault_type);
        put_key(&mut out, &self.owner);
        put_u64(&mut out, self.debt_amount);
        put_u64(&mut out, self.collateral_amount);
        proof {
            assert(out@ =~= self.spec_enc());
        }
        out
    }

    fn decode(d: &Vec<u8>) -> (r: Result<Vault, Error>) {
        if d.len() != 81 {
            return Err(Error::InvalidAccountData);
        }
        let b0 = d[0];
        if b0 > 1 {
            return Err(Error::InvalidAccountData);
        }
        Ok(
            Vault {
                is_initialized: b0 == 1,
                vault_type: read_key(d, 1),
                owner: read_key(d, 33),
                debt_amount: read_u64(d, 65),
                collateral_amount: read_u64(d, 73),
            },
        )
    }
}

impl InitBorshState for Vault {
    open spec fn spec_initialized(self) -> bool {
        self.is_initialized
    }

    fn is_initialized(&self) -> (r: bool) {
        self.is_initialized
    }
}

impl BorshState for Faucet {
    open spec fn spec_enc(self) -> Seq<u8> {
        seq![spec_bool_byte(self.is_initialized)] + spec_u64_to_le_bytes(self.config.amount)
            + spec_u64_to_le_bytes(self.amount_supplied) + spec_u64_to_le_bytes(self.updated_at)
            + self.token@
    }

    open spec fn spec_dec(d: Seq<u8>) -> Option<Faucet> {
        if d.len() == 57 && (d[0] == 0 || d[0] == 1) {
            Some(
                Faucet {
                    is_initialized: d[0] == 1,
                    config: FaucetConfig { amount: spec_u64_from_le_bytes(d.subrange(1, 9)) },
                    amount_supplied: spec_u64_from_le_bytes(d.subrange(9, 17)),
                    updated_at: spec_u64_from_le_bytes(d.subrange(17, 25)),
                    token: spec_key_of(d.subrange(25, 57)),
                },
            )
        } else {
            None
        }
    }

    open spec fn spec_size() -> nat {
        57
    }

    proof fn lemma_enc_len(self) {
        lemma_key_view(self.token);
        lemma_auto_spec_u64_to_from_le_bytes();
    }

    proof fn lemma_round_trip(self) {
        lemma_key_view(self.token);
        lemma_auto_spec_u64_to_from_le_bytes();
        let d = self.spec_enc();
        assert(d.subrange(1, 9) =~= spec_u64_to_le_bytes(self.config.amount));
        assert(d.subrange(9, 17) =~= spec_u64_to_le_bytes(self.amount_supplied));
        assert(d.subrange(17, 25) =~= spec_u64_to_le_bytes(self.updated_at));
        assert(d.subrange(25, 57) =~= self.token@);
    }

    proof fn lemma_decode_canonical(d: Seq<u8>) {
        lemma_key_of_view(d.subrange(25, 57));
        lemma_auto_spec_u64_to_from_le_bytes();
        assert((Self::spec_dec(d)->Some_0).spec_enc() =~= d);
    }

    fn encode(&self) -> (r: Vec<u8>) {
        let mut out: Vec<u8> = Vec::new();
        put_bool(&mut out, self.is_initialized);
        put_u64(&mut out, self.config.amount);
        put_u64(&mut out, self.amount_supplied);
        put_u64(&mut out, self.updated_at);
        put_key(&mut out, &self.token);
        proof {
            assert(out@ =~= self.spec_enc());
        }
        out
    }

    fn decode(d: &Vec<u8>) -> (r: Result<Faucet, Error>) {
        if d.len() != 57 {
            return Err(Error::InvalidAccountData);
        }
        let b0 = d[0];
        if b0 > 1 {
            return Err(Error::InvalidAccountData);
        }
        Ok(
            Faucet {
                is_initialized: b0 == 1,
                config: FaucetConfig { amount: read_u64(d, 1) },
                amount_supplied: read_u64(d, 9),
                updated_at: read_u64(d, 17),
                token: read_key(d, 25),
            },
        )
    }
}

impl InitBorshState for Faucet {
    open spec fn spec_initialized(self) -> bool {
        self.is_initialized
    }

    fn is_initialized(&self) -> (r: bool) {
        self.is_initialized
    }
}

} // verus!
