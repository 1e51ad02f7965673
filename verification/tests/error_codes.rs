use debt_vault::error::Error;

#[test]
fn error_code_round_trip() {
    let all = vec![
        Error::OwnerMismatch,
        Error::FaucetOverflow,
        Error::UnexpectedProgramAccount,
        Error::VaultTypeMismatch,
        Error::DebtTypeMismatch,
        Error::CollateralHolderAccountMismatch,
        Error::InvalidDebtToken,
        Error::InvalidPriceOracle,
        Error::Overflow,
        Error::UninitializedAccount,
        Error::AccountAlreadyInitialized,
        Error::InvalidAccountData,
        Error::NotRentExempt,
        Error::WrongSlotSize,
        Error::NotEnoughAccountKeys,
        Error::InvalidSeeds,
        Error::InvalidInstructionData,
        Error::InvalidSysvar,
        Error::UnknownError,
    ];
    for (i, e) in all.iter().enumerate() {
        assert_eq!(e.code(), i as u32);
        assert_eq!(Error::from_code(e.code()), *e);
    }
}

#[test]
fn unknown_codes_fall_back() {
    assert_eq!(Error::from_code(19), Error::UnknownError);
    assert_eq!(Error::from_code(9999), Error::UnknownError);
    assert_eq!(Error::from_code(u32::MAX), Error::UnknownError);
}
