//! State-transition engine of a ledger-resident program that manages a
//! collateralized debt protocol (debt types, vault types, vaults) and a
//! rate-limitable token faucet.
//!
//! Every call hands the processor an opaque instruction buffer and an ordered
//! list of account references.  The processor decodes the instruction,
//! resolves the named account roles, validates every relationship between the
//! supplied accounts and the persisted state, and only then mutates exactly
//! one storage slot and reports the token-program side effects the host must
//! perform.  If any check fails, the call aborts with a typed error and no
//! state changes.

pub mod authority;
pub mod borsh_state;
pub mod codec;
pub mod effects;
pub mod error;
pub mod instruction;
pub mod laws;
pub mod processor;
pub mod state;
pub mod sysvar;
