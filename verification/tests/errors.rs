use raffle_vault::state::ErrorCode;

#[test]
fn error_numbers_start_at_6000() {
    assert_eq!(ErrorCode::NoTicketsLeft.code(), 6000);
    assert_eq!(ErrorCode::RafflePriceMismatched.code(), 6001);
    assert_eq!(ErrorCode::RaffleTokenSPLAddressMismatched.code(), 6002);
    assert_eq!(ErrorCode::NotEnoughTokens.code(), 6003);
    assert_eq!(ErrorCode::ErrorCustom.code(), 6004);
    assert_eq!(ErrorCode::AlreadyAuthorizedAdmin.code(), 6005);
    assert_eq!(ErrorCode::NotAuthorizedAdmin.code(), 6006);
    assert_eq!(ErrorCode::ExceedMaxWithdrawAmount.code(), 6007);
    assert_eq!(ErrorCode::RaffleFinalized.code(), 6008);
    assert_eq!(ErrorCode::NoTicketsLeft.code(), 0x1770);
    assert_eq!(ErrorCode::RaffleFinalized.code(), 0x1778);
}

#[test]
fn error_messages() {
    assert_eq!(ErrorCode::NoTicketsLeft.message(), "No more tickets left for purchase.");
    assert_eq!(ErrorCode::RafflePriceMismatched.message(), "Raffle price mismatched.");
    assert_eq!(ErrorCode::RaffleTokenSPLAddressMismatched.message(), "Token Address mismatched.");
    assert_eq!(ErrorCode::NotEnoughTokens.message(), "Not Enough Tokens.");
    assert_eq!(ErrorCode::ErrorCustom.message(), "Custom Error.");
    assert_eq!(ErrorCode::AlreadyAuthorizedAdmin.message(), "Already authorized admin");
    assert_eq!(ErrorCode::NotAuthorizedAdmin.message(), "Not authorized admin");
    assert_eq!(ErrorCode::ExceedMaxWithdrawAmount.message(), "Cannot withdraw more than 10,000");
    assert_eq!(ErrorCode::RaffleFinalized.message(), "Raffle already finalized.");
}
