use vstd::prelude::*;
use crate::account::AccountId;

verus! {

/// Largest number of admins that the global configuration holds.
pub const MAX_ADMINS: usize = 5;

/// One custody relationship for one token type.
#[derive(Clone, Copy, Debug, PartialEq, Eq)]
pub struct Vault {
    /// The token type that the vault holds.
    pub token_type: AccountId,
    /// The nonce from which the vault's signing authority derives.
    pub vault_bump: u8,
}

/// The configuration shared by all vaults: who may change it, and who may withdraw.
#[derive(Debug, PartialEq, Eq)]
pub struct Global {
    pub authority: AccountId,
    pub authorized_admins: Vec<AccountId>,
}

/// One purchaser of a raffle and the number of tickets bought.
#[derive(Clone, Copy, Debug, PartialEq, Eq)]
pub struct Buyer {
    pub key: AccountId,
    pub tickets: u32,
}

/// The ticket inventory of one raffle.
#[derive(Debug, PartialEq, Eq)]
pub struct Raffle {
    pub pool_bump: u8,
    pub total_tickets: u32,
    pub sold_tickets: u32,
    pub price_per_ticket: u64,
    pub token_spl_address: AccountId,
    pub owner: AccountId,
    pub nft_mint_address: AccountId,
    pub store_buyers: bool,
    pub is_finalized: bool,
    pub buyers: Vec<Buyer>,
}

/// Told to observers when tickets are sold.
#[derive(Clone, Copy, Debug, PartialEq, Eq)]
pub struct BuyEvent {
    pub buyer: AccountId,
    pub amount: u32,
    pub sold_tickets: u32,
    pub total_tickets: u32,
    pub remaining_tickets: u32,
}

/// Told to observers when tokens are claimed from a vault.
#[derive(Clone, Copy, Debug, PartialEq, Eq)]
pub struct ClaimSKTEvent {
    pub claimer: AccountId,
    pub amount: u64,
}

/// The ways in which an operation fails.
#[derive(Clone, Copy, Debug, PartialEq, Eq, Structural)]
pub enum ErrorCode {
    /// A sale would exceed the raffle's tickets.
    NoTicketsLeft,
    /// The price offered is not the raffle's price per ticket.
    RafflePriceMismatched,
    /// The token offered is not the raffle's token.
    RaffleTokenSPLAddressMismatched,
    /// The balance does not cover the transfer.
    NotEnoughTokens,
    /// Any failure that has no kind of its own.
    ErrorCustom,
    /// The account is an admin already.
    AlreadyAuthorizedAdmin,
    /// The account is not an admin.
    NotAuthorizedAdmin,
    /// The withdrawal reaches the cap.
    ExceedMaxWithdrawAmount,
    /// The raffle is finalized.
    RaffleFinalized,
}

impl ErrorCode {
    /// The number under which the failure is reported: 6000 and the place of its kind.
    pub open spec fn number(self) -> u32 {
        match self {
            ErrorCode::NoTicketsLeft => 6000,
            ErrorCode::RafflePriceMismatched => 6001,
            ErrorCode::RaffleTokenSPLAddressMismatched => 6002,
            ErrorCode::NotEnoughTokens => 6003,
            ErrorCode::ErrorCustom => 6004,
            ErrorCode::AlreadyAuthorizedAdmin => 6005,
            ErrorCode::NotAuthorizedAdmin => 6006,
            ErrorCode::ExceedMaxWithdrawAmount => 6007,
            ErrorCode::RaffleFinalized => 6008,
        }
    }

    /// The words in which the failure is reported.
    pub open spec fn words(self) -> Seq<char> {
        match self {
            ErrorCode::NoTicketsLeft => "No more tickets left for purchase."@,
            ErrorCode::RafflePriceMismatched => "Raffle price mismatched."@,
            ErrorCode::RaffleTokenSPLAddressMismatched => "Token Address mismatched."@,
            ErrorCode::NotEnoughTokens => "Not Enough Tokens."@,
            ErrorCode::ErrorCustom => "Custom Error."@,
            ErrorCode::AlreadyAuthorizedAdmin => "Already authorized admin"@,
            ErrorCode::NotAuthorizedAdmin => "Not authorized admin"@,
            ErrorCode::ExceedMaxWithdrawAmount => "Cannot withdraw more than 10,000"@,
            ErrorCode::RaffleFinalized => "Raffle already finalized."@,
        }
    }

    /// The number under which the failure is reported.
    pub fn code(&self) -> (code: u32)
        ensures
            code == self.number(),
    {
        match self {
            ErrorCode::NoTicketsLeft => 6000,
            ErrorCode::RafflePriceMismatched => 6001,
            ErrorCode::RaffleTokenSPLAddressMismatched => 6002,
            ErrorCode::NotEnoughTokens => 6003,
            ErrorCode::ErrorCustom => 6004,
            ErrorCode::AlreadyAuthorizedAdmin => 6005,
            ErrorCode::NotAuthorizedAdmin => 6006,
            ErrorCode::ExceedMaxWithdrawAmount => 6007,
            ErrorCode::RaffleFinalized => 6008,
        }
    }

    /// The words in which the failure is reported.
    pub fn message(&self) -> (message: &'static str)
        ensures
            message@ == self.words(),
    {
        match self {
            ErrorCode::NoTicketsLeft => "No more tickets left for purchase.",
            ErrorCode::RafflePriceMismatched => "Raffle price mismatched.",
            ErrorCode::RaffleTokenSPLAddressMismatched => "Token Address mismatched.",
            ErrorCode::NotEnoughTokens => "Not Enough Tokens.",
            ErrorCode::ErrorCustom => "Custom Error.",
            ErrorCode::AlreadyAuthorizedAdmin => "Already authorized admin",
            ErrorCode::NotAuthorizedAdmin => "Not authorized admin",
            ErrorCode::ExceedMaxWithdrawAmount => "Cannot withdraw more than 10,000",
            ErrorCode::RaffleFinalized => "Raffle already finalized.",
        }
    }
}

} // verus!
