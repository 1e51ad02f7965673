//! The token-program side effects a successful call asks of the host.  The
//! processor validates everything and mutates its own state; the external
//! token collaborator then performs these effects atomically with the call.

use vstd::prelude::*;
use crate::state::PublicKey;

verus! {

/// One call into the external token program.  A `MintTo` is authorized by a
/// derived authority: the host signs it by replaying the seed tuple
/// `(authority_parent, "minter", authority_nonce)`.
#[derive(Clone, Copy, Debug, PartialEq, Eq, Structural)]
pub enum TokenEffect {
    Transfer { from: PublicKey, to: PublicKey, authority: PublicKey, amount: u64 },
    MintTo {
        mint: PublicKey,
        destination: PublicKey,
        authority: PublicKey,
        authority_parent: PublicKey,
        authority_nonce: u8,
        amount: u64,
    },
}

} // verus!
