//! The two read-only projections of host state a call may need: the rent
//! rule snapshot and the logical-clock snapshot.  Either arrives as an
//! ordinary account in the call's account list, named by a well-known
//! address and carrying the host's canonical little-endian encoding.

use vstd::prelude::*;
use vstd::bytes::spec_u64_from_le_bytes;
use crate::codec::read_u64;
use crate::error::Error;
use crate::state::Account;
use crate::state::AccountV;
use crate::state::PublicKey;

verus! {

/// A snapshot of the host's storage-cost rule.  `exemption_threshold` is the
/// rule's eight-byte threshold field, held as one little-endian word; the
/// processor never interprets it, it only hands it back to the host's
/// minimum-balance computation.
#[derive(Clone, Copy, Debug, PartialEq, Eq, Structural)]
pub struct RentRule {
    pub lamports_per_byte: u64,
    pub exemption_threshold: u64,
    pub burn_percent: u8,
}

/// The minimum balance the rent rule demands of a slot of `data_len`
/// bytes, as the host computes it for its two supported threshold words:
/// `None` over the host's 10-MiB data cap, the rate applied to the length
/// plus the host's fixed 128-byte accounting overhead, doubled under the
/// second threshold word.  Meaningful only for a supported rule (see
/// `spec_supported_rent_rule`); on that domain the arithmetic stays within
/// 64 bits.
pub open spec fn spec_rent_min_balance(
    lamports_per_byte: u64,
    exemption_threshold: u64,
    data_len: usize,
) -> Option<u64> {
    if data_len > 10_485_760 {
        None
    } else if exemption_threshold == 0x3ff0000000000000 {
        Some(((128 + data_len) * lamports_per_byte) as u64)
    } else if exemption_threshold == 0x4000000000000000 {
        Some((2 * (128 + data_len) * lamports_per_byte) as u64)
    } else {
        None
    }
}

/// Whether a rent rule is one the host's minimum-balance computation
/// supports: its threshold word must be one of the host's two known
/// threshold bit patterns, with the rate word under the bound the host
/// states for that threshold.  For any other rule word the host's
/// computation is allowed to overflow, so the processor treats such a rule
/// as exempting nothing and never hands it to the host.
pub open spec fn spec_supported_rent_rule(lamports_per_byte: u64, exemption_threshold: u64) -> bool {
    (exemption_threshold == 0x3ff0000000000000 && lamports_per_byte <= 1_759_197_129_867) || (
    exemption_threshold == 0x4000000000000000 && lamports_per_byte <= 879_598_564_933)
}

/// Whether a rent rule is one the host's minimum-balance computation
/// supports.
pub fn supported_rent_rule(rule: &RentRule) -> (r: bool)
    ensures
        r == spec_supported_rent_rule(rule.lamports_per_byte, rule.exemption_threshold),
{
    (rule.exemption_threshold == 0x3ff0000000000000 && rule.lamports_per_byte
        <= 1_759_197_129_867) || (rule.exemption_threshold == 0x4000000000000000
        && rule.lamports_per_byte <= 879_598_564_933)
}

/// Relies on `solana_program::rent::Rent::try_minimum_balance`: the minimum
/// rent-exempt balance is computed from the rule's `lamports_per_byte` and
/// `exemption_threshold` fields and the data length alone (the burn rate
/// plays no part), exactly as `spec_rent_min_balance` states it.  Only the
/// two threshold words the host supports are admitted, with the rate word
/// under the host's stated bound for each; on that domain the host's
/// arithmetic cannot overflow, and an over-long data length yields `None`
/// rather than a panic.
#[verifier::external_body]
#[allow(deprecated)]
fn try_minimum_balance(
    lamports_per_byte: u64,
    exemption_threshold: u64,
    data_len: usize,
) -> (r: Option<u64>)
    requires
        spec_supported_rent_rule(lamports_per_byte, exemption_threshold),
    ensures
        r == spec_rent_min_balance(lamports_per_byte, exemption_threshold, data_len),
{
    let rent = solana_program::rent::Rent {
        lamports_per_byte,
        exemption_threshold: exemption_threshold.to_le_bytes(),
        burn_percent: 0,
    };
    rent.try_minimum_balance(data_len)
}

/// Whether a balance satisfies the rent rule for a slot of `data_len`
/// bytes.  A rule the host does not support, and a rule whose minimum
/// balance cannot be computed, exempt nothing.
pub open spec fn spec_rent_exempt(rule: RentRule, lamports: u64, data_len: usize) -> bool {
    if !spec_supported_rent_rule(rule.lamports_per_byte, rule.exemption_threshold) {
        false
    } else {
        match spec_rent_min_balance(rule.lamports_per_byte, rule.exemption_threshold, data_len) {
            Some(min) => lamports >= min,
            None => false,
        }
    }
}

/// Whether a balance satisfies the rent rule for a slot of `data_len` bytes.
pub fn rent_exempt(rule: &RentRule, lamports: u64, data_len: usize) -> (r: bool)
    ensures
        r == spec_rent_exempt(*rule, lamports, data_len),
{
    if !supported_rent_rule(rule) {
        return false;
    }
    match try_minimum_balance(rule.lamports_per_byte, rule.exemption_threshold, data_len) {
        Some(min) => lamports >= min,
        None => false,
    }
}

/// The well-known address of the host's rent sysvar account.
pub open spec fn spec_rent_sysvar_id() -> PublicKey {
    PublicKey { w0: 0x515c2c1917d5a706, w1: 0x7ff14a3d4cc98c21, w2: 0x44fda19b08eeda58, w3: 0x8ad9dbe3 }
}

/// The well-known address of the host's rent sysvar account.
pub fn rent_sysvar_id() -> (k: PublicKey)
    ensures
        k == spec_rent_sysvar_id(),
{
    PublicKey { w0: 0x515c2c1917d5a706, w1: 0x7ff14a3d4cc98c21, w2: 0x44fda19b08eeda58, w3: 0x8ad9dbe3 }
}

/// The well-known address of the host's clock sysvar account.
pub open spec fn spec_clock_sysvar_id() -> PublicKey {
    PublicKey { w0: 0xc974c71817d5a706, w1: 0xb65e1d6998635628, w2: 0x5c6d4b9ba3b85e8b, w3: 0x215b5573 }
}

/// The well-known address of the host's clock sysvar account.
pub fn clock_sysvar_id() -> (k: PublicKey)
    ensures
        k == spec_clock_sysvar_id(),
{
    PublicKey { w0: 0xc974c71817d5a706, w1: 0xb65e1d6998635628, w2: 0x5c6d4b9ba3b85e8b, w3: 0x215b5573 }
}

/// The rent rule encoded in a rent sysvar account's bytes: its rate word,
/// its threshold word and its burn rate, in the host's canonical layout.
/// Trailing bytes are ignored, as the host's own decoder ignores them.
pub open spec fn spec_dec_rent(d: Seq<u8>) -> Option<RentRule> {
    if d.len() >= 17 {
        Some(
            RentRule {
                lamports_per_byte: spec_u64_from_le_bytes(d.subrange(0, 8)),
                exemption_threshold: spec_u64_from_le_bytes(d.subrange(8, 16)),
                burn_percent: d[16],
            },
        )
    } else {
        None
    }
}

/// The rent rule carried by an account, if the account is the rent sysvar
/// account and its bytes decode.
pub open spec fn spec_parse_rent(a: AccountV) -> Option<RentRule> {
    if a.key == spec_rent_sysvar_id() {
        spec_dec_rent(a.data)
    } else {
        None
    }
}

/// The rent rule fetched from position `i` of the account list.
pub open spec fn spec_get_rent(accounts: Seq<AccountV>, i: int) -> Result<RentRule, Error> {
    if accounts.len() <= i {
        Err(Error::NotEnoughAccountKeys)
    } else {
        match spec_parse_rent(accounts[i]) {
            Some(rule) => Ok(rule),
            None => Err(Error::InvalidSysvar),
        }
    }
}

/// Fetches the rent rule from position `i` of the account list.
pub fn get_rent(accounts: &Vec<Account>, i: usize) -> (r: Result<RentRule, Error>)
    ensures
        r == spec_get_rent(accounts.deep_view(), i as int),
{
    if i >= accounts.len() {
        return Err(Error::NotEnoughAccountKeys);
    }
    let acc = &accounts[i];
    if !(acc.key == rent_sysvar_id()) {
        return Err(Error::InvalidSysvar);
    }
    if acc.data.len() < 17 {
        return Err(Error::InvalidSysvar);
    }
    Ok(
        RentRule {
            lamports_per_byte: read_u64(&acc.data, 0),
            exemption_threshold: read_u64(&acc.data, 8),
            burn_percent: acc.data[16],
        },
    )
}

/// The logical-clock value encoded in a clock sysvar account's bytes: the
/// first word of the host's canonical layout.  Trailing bytes are ignored,
/// as the host's own decoder ignores them; shorter buffers do not decode.
pub open spec fn spec_dec_clock_slot(d: Seq<u8>) -> Option<u64> {
    if d.len() >= 40 {
        Some(spec_u64_from_le_bytes(d.subrange(0, 8)))
    } else {
        None
    }
}

/// The logical-clock value carried by an account, if the account is the
/// clock sysvar account and its bytes decode.
pub open spec fn spec_parse_clock(a: AccountV) -> Option<u64> {
    if a.key == spec_clock_sysvar_id() {
        spec_dec_clock_slot(a.data)
    } else {
        None
    }
}

/// The logical-clock value fetched from position `i` of the account list.
pub open spec fn spec_get_clock(accounts: Seq<AccountV>, i: int) -> Result<u64, Error> {
    if accounts.len() <= i {
        Err(Error::NotEnoughAccountKeys)
    } else {
        match spec_parse_clock(accounts[i]) {
            Some(slot) => Ok(slot),
            None => Err(Error::InvalidSysvar),
        }
    }
}

/// Fetches the logical-clock value from position `i` of the account list.
pub fn get_clock(accounts: &Vec<Account>, i: usize) -> (r: Result<u64, Error>)
    ensures
        r == spec_get_clock(accounts.deep_view(), i as int),
{
    if i >= accounts.len() {
        return Err(Error::NotEnoughAccountKeys);
    }
    let acc = &accounts[i];
    if !(acc.key == clock_sysvar_id()) {
        return Err(Error::InvalidSysvar);
    }
    if acc.data.len() < 40 {
        return Err(Error::InvalidSysvar);
    }
    Ok(read_u64(&acc.data, 0))
}

} // verus!
