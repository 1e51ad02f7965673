//! The typed failure reasons a call can surface to its caller.

use vstd::prelude::*;

verus! {

/// Every reason a call can fail.  The first group are the protocol's own
/// validation failures; the second group are store-level failures raised by
/// the typed state store, the account resolver and the instruction decoder.
/// `UnknownError` is the fallback used when a foreign error code is
/// translated into this taxonomy.
#[derive(Clone, Copy, Debug, PartialEq, Eq, Structural)]
pub enum Error {
    OwnerMismatch,
    FaucetOverflow,
    UnexpectedProgramAccount,
    VaultTypeMismatch,
    DebtTypeMismatch,
    CollateralHolderAccountMismatch,
    InvalidDebtToken,
    InvalidPriceOracle,
    Overflow,
    UninitializedAccount,
    AccountAlreadyInitialized,
    InvalidAccountData,
    NotRentExempt,
    WrongSlotSize,
    NotEnoughAccountKeys,
    InvalidSeeds,
    InvalidInstructionData,
    InvalidSysvar,
    UnknownError,
}

/// The stable numeric code of each error, as surfaced to the host.
pub open spec fn spec_error_code(e: Error) -> u32 {
    match e {
        Error::OwnerMismatch => 0,
        Error::FaucetOverflow => 1,
        Error::UnexpectedProgramAccount => 2,
        Error::VaultTypeMismatch => 3,
        Error::DebtTypeMismatch => 4,
        Error::CollateralHolderAccountMismatch => 5,
        Error::InvalidDebtToken => 6,
        Error::InvalidPriceOracle => 7,
        Error::Overflow => 8,
        Error::UninitializedAccount => 9,
        Error::AccountAlreadyInitialized => 10,
        Error::InvalidAccountData => 11,
        Error::NotRentExempt => 12,
        Error::WrongSlotSize => 13,
        Error::NotEnoughAccountKeys => 14,
        Error::InvalidSeeds => 15,
        Error::InvalidInstructionData => 16,
        Error::InvalidSysvar => 17,
        Error::UnknownError => 18,
    }
}

/// The error a foreign numeric code stands for; codes outside the taxonomy
/// fall back to `UnknownError`.
pub open spec fn spec_error_from_code(code: u32) -> Error {
    if code == 0 {
        Error::OwnerMismatch
    } else if code == 1 {
        Error::FaucetOverflow
    } else if code == 2 {
        Error::UnexpectedProgramAccount
    } else if code == 3 {
        Error::VaultTypeMismatch
    } else if code == 4 {
        Error::DebtTypeMismatch
    } else if code == 5 {
        Error::CollateralHolderAccountMismatch
    } else if code == 6 {
        Error::InvalidDebtToken
    } else if code == 7 {
        Error::InvalidPriceOracle
    } else if code == 8 {
        Error::Overflow
    } else if code == 9 {
        Error::UninitializedAccount
    } else if code == 10 {
        Error::AccountAlreadyInitialized
    } else if code == 11 {
        Error::InvalidAccountData
    } else if code == 12 {
        Error::NotRentExempt
    } else if code == 13 {
        Error::WrongSlotSize
    } else if code == 14 {
        Error::NotEnoughAccountKeys
    } else if code == 15 {
        Error::InvalidSeeds
    } else if code == 16 {
        Error::InvalidInstructionData
    } else if code == 17 {
        Error::InvalidSysvar
    } else {
        Error::UnknownError
    }
}

impl Error {
    /// The stable numeric code of this error.
    pub fn code(&self) -> (r: u32)
        ensures
            r == spec_error_code(*self),
    {
        match self {
            Error::OwnerMismatch => 0,
            Error::FaucetOverflow => 1,
            Error::UnexpectedProgramAccount => 2,
            Error::VaultTypeMismatch => 3,
            Error::DebtTypeMismatch => 4,
            Error::CollateralHolderAccountMismatch => 5,
            Error::InvalidDebtToken => 6,
            Error::InvalidPriceOracle => 7,
            Error::Overflow => 8,
            Error::UninitializedAccount => 9,
            Error::AccountAlreadyInitialized => 10,
            Error::InvalidAccountData => 11,
            Error::NotRentExempt => 12,
            Error::WrongSlotSize => 13,
            Error::NotEnoughAccountKeys => 14,
            Error::InvalidSeeds => 15,
            Error::InvalidInstructionData => 16,
            Error::InvalidSysvar => 17,
            Error::UnknownError => 18,
        }
    }

    /// Translates a foreign numeric code into this taxonomy; unknown codes
    /// become `UnknownError`.
    pub fn from_code(code: u32) -> (r: Error)
        ensures
            r == spec_error_from_code(code),
    {
        if code == 0 {
            Error::OwnerMismatch
        } else if code == 1 {
            Error::FaucetOverflow
        } else if code == 2 {
            Error::UnexpectedProgramAccount
        } else if code == 3 {
            Error::VaultTypeMismatch
        } else if code == 4 {
            Error::DebtTypeMismatch
        } else if code == 5 {
            Error::CollateralHolderAccountMismatch
        } else if code == 6 {
            Error::InvalidDebtToken
        } else if code == 7 {
            Error::InvalidPriceOracle
        } else if code == 8 {
            Error::Overflow
        } else if code == 9 {
            Error::UninitializedAccount
        } else if code == 10 {
            Error::AccountAlreadyInitialized
        } else if code == 11 {
            Error::InvalidAccountData
        } else if code == 12 {
            Error::NotRentExempt
        } else if code == 13 {
            Error::WrongSlotSize
        } else if code == 14 {
            Error::NotEnoughAccountKeys
        } else if code == 15 {
            Error::InvalidSeeds
        } else if code == 16 {
            Error::InvalidInstructionData
        } else if code == 17 {
            Error::InvalidSysvar
        } else {
            Error::UnknownError
        }
    }
}

/// Translating an error's own code back always yields the same error.
pub proof fn lemma_error_code_round_trip(e: Error)
    ensures
        spec_error_from_code(spec_error_code(e)) == e,
{
}

} // verus!
