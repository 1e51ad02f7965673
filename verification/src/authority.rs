//! The derived-authority resolver.  Certain authorities (token minters,
//! collateral escrow signers) hold no private key: their address is derived
//! deterministically from a parent entity's address, a fixed role label and
//! a caller-supplied one-byte nonce, through the host's one-way derivation
//! function.  The processor always recomputes the expected address from the
//! parent entity's own stored address and compares it against what the
//! caller supplied.

use vstd::prelude::*;
use crate::error::Error;
use crate::state::PublicKey;

verus! {

/// The address the host derives for a program of address `program_id` from
/// the seed tuple `(parent, role, nonce)`, or `None` when the host rejects
/// the derivation: a result on the curve of key-holder addresses, or seeds
/// beyond its length limits.  The host computes it; this name only fixes
/// that the result depends on the four seeds alone.
pub uninterp spec fn derived_address(
    program_id: Seq<u8>,
    parent: Seq<u8>,
    role: Seq<u8>,
    nonce: u8,
) -> Option<Seq<u8>>;

/// The bytes of the role label `"minter"`, the seed naming a token-minting
/// authority.
pub open spec fn spec_minter_role() -> Seq<u8> {
    seq![0x6du8, 0x69u8, 0x6eu8, 0x74u8, 0x65u8, 0x72u8]
}

/// The bytes of the role label `"minter"`.
pub fn minter_role() -> (r: Vec<u8>)
    ensures
        r@ == spec_minter_role(),
{
    let mut out: Vec<u8> = Vec::new();
    out.push(0x6du8);
    out.push(0x69u8);
    out.push(0x6eu8);
    out.push(0x74u8);
    out.push(0x65u8);
    out.push(0x72u8);
    proof {
        assert(out@ =~= spec_minter_role());
    }
    out
}

/// Relies on `solana_program::pubkey::Pubkey::create_program_address`: the
/// derived address is a one-way, collision-resistant function of the seeds
/// and the program address alone, and a rejected derivation — a result on
/// the curve of key-holder addresses, or seeds beyond the host's length
/// limits — is reported as an error, never a panic.
#[verifier::external_body]
fn create_program_address(
    program_id: &PublicKey,
    parent: &PublicKey,
    role: &Vec<u8>,
    nonce: u8,
) -> (r: Option<PublicKey>)
    ensures
        match r {
            Some(k) => derived_address(program_id@, parent@, role@, nonce) == Some(k@),
            None => derived_address(program_id@, parent@, role@, nonce) is None,
        },
{
    let pid = solana_program::pubkey::Pubkey::try_from(program_id.to_bytes().as_slice()).unwrap();
    let parent_bytes = parent.to_bytes();
    let seeds: [&[u8]; 3] = [parent_bytes.as_slice(), role.as_slice(), core::slice::from_ref(&nonce)];
    match solana_program::pubkey::Pubkey::create_program_address(&seeds, &pid) {
        Ok(k) => PublicKey::from_bytes(&k.to_bytes().to_vec()),
        Err(_) => None,
    }
}

/// Recomputes the derived authority address for `(parent, role, nonce)`
/// under this program, failing with `InvalidSeeds` when the host rejects
/// the derivation (an on-curve result, or seeds beyond its limits).
pub fn expected_program_account_pubkey(
    program_id: &PublicKey,
    parent: &PublicKey,
    role: &Vec<u8>,
    nonce: u8,
) -> (r: Result<PublicKey, Error>)
    ensures
        match r {
            Ok(k) => derived_address(program_id@, parent@, role@, nonce) == Some(k@),
            Err(e) => derived_address(program_id@, parent@, role@, nonce) is None && e
                == Error::InvalidSeeds,
        },
{
    match create_program_address(program_id, parent, role, nonce) {
        Some(k) => Ok(k),
        None => Err(Error::InvalidSeeds),
    }
}

} // verus!
