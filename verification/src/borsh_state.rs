//! The typed state store: every persisted entity has a canonical fixed-size
//! encoding, and moves between its storage slot and its typed form only
//! through the load/save discipline here.  A save never resizes a slot, and
//! the rent-exempt save used at initialization additionally demands that the
//! slot's balance satisfies the host's storage-cost rule.
//!
//! The encoding is the Borsh layout of each record's fields — a boolean as
//! one byte, a counter as eight little-endian bytes, an address as its raw
//! 32 bytes — so stored records are binary-compatible with Borsh-derived
//! readers and writers.

use vstd::prelude::*;
use crate::error::Error;
use crate::state::Account;
use crate::state::AccountV;
use crate::sysvar::RentRule;
use crate::sysvar::rent_exempt;
use crate::sysvar::spec_rent_exempt;

verus! {

/// A record with a canonical fixed-size byte encoding.  Decoding accepts
/// exactly the encodings: every value round-trips, and every buffer that
/// decodes is the encoding of what it decodes to.
pub trait BorshState: Sized {
    /// The canonical encoding of this record.
    spec fn spec_enc(self) -> Seq<u8>;

    /// The record a buffer decodes to, if it is a canonical encoding.
    spec fn spec_dec(d: Seq<u8>) -> Option<Self>;

    /// The fixed byte size of every encoding of this record type.
    spec fn spec_size() -> nat;

    /// Every encoding has the fixed size.
    proof fn lemma_enc_len(self)
        ensures
            self.spec_enc().len() == Self::spec_size(),
    ;

    /// Decoding an encoding yields the encoded record.
    proof fn lemma_round_trip(self)
        ensures
            Self::spec_dec(self.spec_enc()) == Some(self),
    ;

    /// Every buffer that decodes is the canonical encoding of what it
    /// decodes to.
    proof fn lemma_decode_canonical(d: Seq<u8>)
        requires
            Self::spec_dec(d) is Some,
        ensures
            Self::spec_dec(d) matches Some(x) && x.spec_enc() == d,
    ;

    /// Encodes this record.
    fn encode(&self) -> (r: Vec<u8>)
        ensures
            r@ == self.spec_enc(),
    ;

    /// Decodes a buffer, failing on anything that is not a canonical
    /// encoding.
    fn decode(d: &Vec<u8>) -> (r: Result<Self, Error>)
        ensures
            match r {
                Ok(x) => Self::spec_dec(d@) == Some(x),
                Err(e) => Self::spec_dec(d@) is None && e == Error::InvalidAccountData,
            },
    ;
}

/// A record with an initialization flag, created exactly once: loads of
/// live records demand the flag set, and the init path demands it clear.
pub trait InitBorshState: BorshState {
    /// Whether this record has been initialized.
    spec fn spec_initialized(self) -> bool;

    /// Whether this record has been initialized.
    fn is_initialized(&self) -> (r: bool)
        ensures
            r == self.spec_initialized(),
    ;
}

/// The record stored in a slot's bytes, or the decode failure.
pub open spec fn spec_load<T: BorshState>(data: Seq<u8>) -> Result<T, Error> {
    match T::spec_dec(data) {
        Some(x) => Ok(x),
        None => Err(Error::InvalidAccountData),
    }
}

/// Loads the record stored in an account's slot.
pub fn load<T: BorshState>(account: &Account) -> (r: Result<T, Error>)
    ensures
        r == spec_load::<T>(account.data@),
{
    T::decode(&account.data)
}

/// The account after a record is saved into its slot, or the failure: a
/// save only ever overwrites a slot whose size equals the encoding's size.
pub open spec fn spec_save<T: BorshState>(x: T, a: AccountV) -> Result<AccountV, Error> {
    if a.data.len() == T::spec_size() {
        Ok(AccountV { key: a.key, lamports: a.lamports, data: x.spec_enc() })
    } else {
        Err(Error::WrongSlotSize)
    }
}

/// Saves a record into an account's slot, in place.
pub fn save<T: BorshState>(x: &T, account: &mut Account) -> (r: Result<(), Error>)
    ensures
        match r {
            Ok(()) => spec_save::<T>(*x, old(account)@) == Ok::<AccountV, Error>(final(account)@),
            Err(e) => spec_save::<T>(*x, old(account)@) == Err::<AccountV, Error>(e)
                && final(account)@ == old(account)@,
        },
{
    proof {
        x.lemma_enc_len();
    }
    let data = x.encode();
    if account.data.len() != data.len() {
        return Err(Error::WrongSlotSize);
    }
    account.data = data;
    Ok(())
}

/// The account after a rent-checked save, or the failure: before the size
/// check, the slot's balance must satisfy the rent rule for the encoding's
/// size.  Used only at initialization, when the slot must be proven able to
/// persist indefinitely before state is committed to it.
pub open spec fn spec_save_exempt<T: BorshState>(x: T, a: AccountV, rule: RentRule) -> Result<
    AccountV,
    Error,
> {
    if !spec_rent_exempt(rule, a.lamports, T::spec_size() as usize) {
        Err(Error::NotRentExempt)
    } else if a.data.len() == T::spec_size() {
        Ok(AccountV { key: a.key, lamports: a.lamports, data: x.spec_enc() })
    } else {
        Err(Error::WrongSlotSize)
    }
}

/// Saves a record into an account's slot after checking the slot's balance
/// against the rent rule.
pub fn save_exempt<T: BorshState>(x: &T, account: &mut Account, rule: &RentRule) -> (r: Result<
    (),
    Error,
>)
    ensures
        match r {
            Ok(()) => spec_save_exempt::<T>(*x, old(account)@, *rule) == Ok::<AccountV, Error>(
                final(account)@,
            ),
            Err(e) => spec_save_exempt::<T>(*x, old(account)@, *rule) == Err::<AccountV, Error>(e)
                && final(account)@ == old(account)@,
        },
{
    proof {
        x.lemma_enc_len();
    }
    let data = x.encode();
    if !rent_exempt(rule, account.lamports, data.len()) {
        return Err(Error::NotRentExempt);
    }
    if account.data.len() != data.len() {
        return Err(Error::WrongSlotSize);
    }
    account.data = data;
    Ok(())
}

/// The initialized record stored in a slot, or the failure: a slot that
/// decodes to an uninitialized record rejects every non-init access.
pub open spec fn spec_load_initialized<T: InitBorshState>(data: Seq<u8>) -> Result<T, Error> {
    match T::spec_dec(data) {
        None => Err(Error::InvalidAccountData),
        Some(x) => if x.spec_initialized() {
            Ok(x)
        } else {
            Err(Error::UninitializedAccount)
        },
    }
}

/// Loads a record that must already be initialized.
pub fn load_initialized<T: InitBorshState>(account: &Account) -> (r: Result<T, Error>)
    ensures
        r == spec_load_initialized::<T>(account.data@),
{
    let x = load::<T>(account)?;
    if !x.is_initialized() {
        return Err(Error::UninitializedAccount);
    }
    Ok(x)
}

/// The uninitialized record stored in a slot, or the failure: a slot that
/// decodes to an initialized record rejects a second initialization.
pub open spec fn spec_init_uninitialized<T: InitBorshState>(data: Seq<u8>) -> Result<T, Error> {
    match T::spec_dec(data) {
        None => Err(Error::InvalidAccountData),
        Some(x) => if x.spec_initialized() {
            Err(Error::AccountAlreadyInitialized)
        } else {
            Ok(x)
        },
    }
}

/// Loads a record that must not yet be initialized.
pub fn init_uninitialized<T: InitBorshState>(account: &Account) -> (r: Result<T, Error>)
    ensures
        r == spec_init_uninitialized::<T>(account.data@),
{
    let x = load::<T>(account)?;
    if x.is_initialized() {
        return Err(Error::AccountAlreadyInitialized);
    }
    Ok(x)
}

} // verus!
