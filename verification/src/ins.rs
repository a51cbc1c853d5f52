use vstd::prelude::*;
use crate::account::AccountId;
use crate::ledger::Ledger;
use crate::state::{Global, Vault};

verus! {

/// A record together with the identifier of the account that stores it.
#[derive(Debug, PartialEq, Eq)]
pub struct Account<T> {
    pub key: AccountId,
    pub data: T,
}

impl<T: Copy> Clone for Account<T> {
    fn clone(&self) -> (copy: Self)
        ensures
            copy == *self,
    {
        Account { key: self.key, data: self.data }
    }
}

impl<T: Copy> Copy for Account<T> {

}

/// What one operation works on: the program it runs as, the ledger, and the accounts it names.
pub struct Context<T> {
    pub program_id: AccountId,
    pub ledger: Ledger,
    pub accounts: T,
}

/// The accounts of a vault initialization.
#[derive(Clone, Copy, Debug, PartialEq, Eq)]
pub struct InitializeVault {
    /// Who funds the custody account.
    pub payer: AccountId,
    /// The vault's account. Its record is `None` as long as the vault is not initialized.
    pub vault: Account<Option<Vault>>,
    /// The sub-account that is to sign for the vault's custody.
    pub vault_pool: AccountId,
    /// The owner of the pool's account, as the ledger names it.
    pub vault_pool_owner: AccountId,
    /// The account that holds the vault's tokens.
    pub vault_pool_skt_account: AccountId,
    /// The token type of the custody account.
    pub skt_mint: AccountId,
}

/// The accounts of a withdrawal.
#[derive(Debug, PartialEq, Eq)]
pub struct WithdrawVault {
    /// The caller, who receives what is withdrawn.
    pub claimer: AccountId,
    pub global: Global,
    pub vault: Account<Vault>,
    pub vault_pool: AccountId,
    pub vault_pool_skt_account: AccountId,
    /// The caller's token-holding account.
    pub claimer_skt_account: AccountId,
}

/// The accounts of a claim.
#[derive(Clone, Copy, Debug, PartialEq, Eq)]
pub struct ClaimSkt {
    pub claimer: AccountId,
    pub vault: Account<Vault>,
    pub vault_pool: AccountId,
    pub vault_pool_skt_account: AccountId,
    pub claimer_skt_account: AccountId,
}

/// The accounts of a conversion of native currency into tokens.
#[derive(Clone, Copy, Debug, PartialEq, Eq)]
pub struct Convert {
    pub claimer: AccountId,
    pub vault: Account<Vault>,
    pub vault_pool: AccountId,
    pub vault_pool_skt_account: AccountId,
    pub claimer_skt_account: AccountId,
    pub skt_mint: AccountId,
}

} // verus!
