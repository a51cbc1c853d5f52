use vstd::prelude::*;
use crate::account::AccountId;
use crate::authority::{derive_spec, DerivationError};
use crate::constants::{MAX_WITHDRAW_AMOUNT, VAULT_SKT_SEED_PREFIX};
use crate::exchange::{exchange_cost, exchange_grant, skt_amount_for, sol_amount_for};
use crate::gate::require_admin;
use crate::ins::{Account, ClaimSkt, Context, Convert, InitializeVault, WithdrawVault};
use crate::ledger::{LedgerView, TokenAccount};
use crate::state::{ClaimSKTEvent, ErrorCode, Vault};

verus! {

/// The opening of a token-holding account that an operation asks for.
#[derive(Clone, Copy, Debug, PartialEq, Eq)]
pub struct CreateAccount {
    pub payer: AccountId,
    pub account: AccountId,
    pub authority: AccountId,
    pub mint: AccountId,
}

/// A movement of native currency that an operation asks for.
#[derive(Clone, Copy, Debug, PartialEq, Eq)]
pub struct NativeTransfer {
    pub from: AccountId,
    pub to: AccountId,
    pub amount: u64,
}

/// A movement of tokens out of custody that an operation asks for. The vault's derived
/// authority signs it: its signing proof is made of the vault's purpose tag, `vault` and
/// `vault_bump`.
#[derive(Clone, Copy, Debug, PartialEq, Eq)]
pub struct CustodyTransfer {
    pub from: AccountId,
    pub to: AccountId,
    pub authority: AccountId,
    pub amount: u64,
    pub vault: AccountId,
    pub vault_bump: u8,
}

/// What a conversion did: the payment, the opening of the caller's token-holding account where
/// there was none, and the grant.
#[derive(Clone, Copy, Debug, PartialEq, Eq)]
pub struct ConvertReceipt {
    pub payment: NativeTransfer,
    pub created: Option<CreateAccount>,
    pub grant: CustodyTransfer,
}

/// The vault's pool is the sub-account that derives from the vault's purpose tag, the vault's
/// identifier and `nonce`, for the program `program_id`.
pub open spec fn pool_is_derived(
    program_id: AccountId,
    vault: AccountId,
    nonce: u8,
    vault_pool: AccountId,
) -> bool {
    derive_spec(program_id, VAULT_SKT_SEED_PREFIX@, vault, nonce) == Ok::<Seq<u8>, DerivationError>(
        vault_pool.bytes@,
    )
}

/// The derivation gave `vault_pool`, so that the program signs for it.
pub open spec fn signs_for(authority: Result<AccountId, DerivationError>, vault_pool: AccountId) -> bool {
    authority == Ok::<AccountId, DerivationError>(vault_pool)
}

/// The transfer out of custody that moves `amount` to the caller's token-holding account.
pub open spec fn custody_transfer(
    vault: Account<Vault>,
    vault_pool: AccountId,
    from: AccountId,
    to: AccountId,
    amount: u64,
) -> CustodyTransfer {
    CustodyTransfer {
        from,
        to,
        authority: vault_pool,
        amount,
        vault: vault.key,
        vault_bump: vault.data.vault_bump,
    }
}

/// The outcome of a conversion on a ledger: the ledger after it and its receipt, or the
/// failure, after which the ledger is as before.
///
/// The caller pays the price of the option to the vault; the caller's token-holding account is
/// opened, for the caller, where it does not exist; then custody grants the option's tokens,
/// for which the vault's pool must sign (`authorized`).
pub open spec fn convert_outcome(
    ledger: LedgerView,
    accounts: Convert,
    authorized: bool,
    exchange_option: u8,
    is_holder: bool,
) -> Result<(LedgerView, ConvertReceipt), ErrorCode> {
    let sol_amount = exchange_cost(exchange_option, is_holder);
    let skt_amount = exchange_grant(exchange_option);
    let create = !ledger.tokens.contains_key(accounts.claimer_skt_account);
    match ledger.transfer_lamports(accounts.claimer, accounts.vault.key, sol_amount) {
        Err(e) => Err(e),
        Ok(paid) => {
            let opened = if create {
                paid.create_account(accounts.claimer_skt_account, accounts.skt_mint, accounts.claimer)->Ok_0
            } else {
                paid
            };
            if !authorized {
                Err(ErrorCode::ErrorCustom)
            } else {
                match opened.transfer(
                    accounts.vault_pool_skt_account,
                    accounts.claimer_skt_account,
                    accounts.vault_pool,
                    skt_amount,
                ) {
                    Err(e) => Err(e),
                    Ok(granted) => Ok(
                        (
                            granted,
                            ConvertReceipt {
                                payment: NativeTransfer {
                                    from: accounts.claimer,
                                    to: accounts.vault.key,
                                    amount: sol_amount,
                                },
                                created: if create {
                                    Some(
                                        CreateAccount {
                                            payer: accounts.claimer,
                                            account: accounts.claimer_skt_account,
                                            authority: accounts.claimer,
                                            mint: accounts.skt_mint,
                                        },
                                    )
                                } else {
                                    None
                                },
                                grant: custody_transfer(
                                    accounts.vault,
                                    accounts.vault_pool,
                                    accounts.vault_pool_skt_account,
                                    accounts.claimer_skt_account,
                                    skt_amount,
                                ),
                            },
                        ),
                    ),
                }
            }
        },
    }
}

/// Derives the signing authority of a vault under `nonce`.
fn vault_authority(program_id: &AccountId, vault: &AccountId, nonce: u8) -> (authority: Result<
    AccountId,
    DerivationError,
>)
    ensures
        forall|vault_pool: AccountId|
            signs_for(authority, vault_pool) == pool_is_derived(*program_id, *vault, nonce, vault_pool),
{
    match crate::authority::derive(program_id, VAULT_SKT_SEED_PREFIX.as_slice(), vault, nonce) {
        Ok((id, _)) => {
            proof {
                assert forall|vault_pool: AccountId|
                    signs_for(Ok(id), vault_pool) == pool_is_derived(
                        *program_id,
                        *vault,
                        nonce,
                        vault_pool,
                    ) by {
                    if id.bytes@ == vault_pool.bytes@ {
                        assert(id.bytes =~= vault_pool.bytes);
                    }
                }
            }
            Ok(id)
        },
        Err(e) => Err(e),
    }
}

/// Tells whether a derivation gave `vault_pool`.
fn authority_signs(authority: &Result<AccountId, DerivationError>, vault_pool: &AccountId) -> (r: bool)
    ensures
        r == signs_for(*authority, *vault_pool),
{
    match authority {
        Ok(id) => *id == *vault_pool,
        Err(_) => false,
    }
}

/// Converts native currency into tokens at the tabled rate, given the outcome of deriving the
/// vault's signing authority.
///
/// On success the ledger is the one after payment, opening and grant, and the receipt lists
/// them; on failure nothing has changed.
pub fn convert_skt_sol_with_authority(
    ctx: &mut Context<Convert>,
    authority: Result<AccountId, DerivationError>,
    exchange_option: u8,
    is_holder: bool,
) -> (r: Result<ConvertReceipt, ErrorCode>)
    ensures
        final(ctx).program_id == old(ctx).program_id,
        final(ctx).accounts == old(ctx).accounts,
        match convert_outcome(
            old(ctx).ledger@,
            old(ctx).accounts,
            signs_for(authority, old(ctx).accounts.vault_pool),
            exchange_option,
            is_holder,
        ) {
            Ok((after, receipt)) => r == Ok::<ConvertReceipt, ErrorCode>(receipt) && final(ctx).ledger@ == after,
            Err(e) => r == Err::<ConvertReceipt, ErrorCode>(e) && final(ctx).ledger@ == old(ctx).ledger@,
        },
{
    let sol_amount = sol_amount_for(exchange_option, is_holder);
    let skt_amount = skt_amount_for(exchange_option);
    let mut ledger = ctx.ledger.snapshot();

    // The caller pays the vault.
    let payment = NativeTransfer {
        from: ctx.accounts.claimer,
        to: ctx.accounts.vault.key,
        amount: sol_amount,
    };
    match ledger.transfer_lamports(&ctx.accounts.claimer, &ctx.accounts.vault.key, sol_amount) {
        Err(e) => { return Err(e); },
        Ok(()) => {},
    }

    // The vault grants the tokens.
    let mut created: Option<CreateAccount> = None;
    if ledger.token_account(&ctx.accounts.claimer_skt_account).is_none() {
        let opened = ledger.create_account(
            ctx.accounts.claimer_skt_account,
            ctx.accounts.skt_mint,
            ctx.accounts.claimer,
        );
        assert(opened is Ok);
        created = Some(
            CreateAccount {
                payer: ctx.accounts.claimer,
                account: ctx.accounts.claimer_skt_account,
                authority: ctx.accounts.claimer,
                mint: ctx.accounts.skt_mint,
            },
        );
    }
    if !authority_signs(&authority, &ctx.accounts.vault_pool) {
        return Err(ErrorCode::ErrorCustom);
    }
    match ledger.transfer(
        &ctx.accounts.vault_pool_skt_account,
        &ctx.accounts.claimer_skt_account,
        &ctx.accounts.vault_pool,
        skt_amount,
    ) {
        Err(e) => { return Err(e); },
        Ok(()) => {},
    }
    let grant = CustodyTransfer {
        from: ctx.accounts.vault_pool_skt_account,
        to: ctx.accounts.claimer_skt_account,
        authority: ctx.accounts.vault_pool,
        amount: skt_amount,
        vault: ctx.accounts.vault.key,
        vault_bump: ctx.accounts.vault.data.vault_bump,
    };
    ctx.ledger = ledger;
    Ok(ConvertReceipt { payment, created, grant })
}

/// Converts native currency into tokens at the tabled rate.
///
/// The vault's signing authority is derived from the vault's identifier and its stored nonce;
/// the grant is made only if that gives the vault's pool.
pub fn convert_skt_sol(ctx: &mut Context<Convert>, exchange_option: u8, is_holder: bool) -> (r: Result<
    ConvertReceipt,
    ErrorCode,
>)
    ensures
        final(ctx).program_id == old(ctx).program_id,
        final(ctx).accounts == old(ctx).accounts,
        match convert_outcome(
            old(ctx).ledger@,
            old(ctx).accounts,
            pool_is_derived(
                old(ctx).program_id,
                old(ctx).accounts.vault.key,
                old(ctx).accounts.vault.data.vault_bump,
                old(ctx).accounts.vault_pool,
            ),
            exchange_option,
            is_holder,
        ) {
            Ok((after, receipt)) => r == Ok::<ConvertReceipt, ErrorCode>(receipt) && final(ctx).ledger@ == after,
            Err(e) => r == Err::<ConvertReceipt, ErrorCode>(e) && final(ctx).ledger@ == old(ctx).ledger@,
        },
{
    let authority = vault_authority(
        &ctx.program_id,
        &ctx.accounts.vault.key,
        ctx.accounts.vault.data.vault_bump,
    );
    convert_skt_sol_with_authority(ctx, authority, exchange_option, is_holder)
}

/// What an initialization did: whether it initialized the vault, the opening of the custody
/// account where there was none, and the identities to put on record, those of the vault, of
/// its pool, of its custody account and of the owner of the pool's account.
#[derive(Clone, Copy, Debug, PartialEq, Eq)]
pub struct InitializeReceipt {
    /// The vault was not initialized before, and is now.
    pub initialized: bool,
    pub created: Option<CreateAccount>,
    pub vault: AccountId,
    pub pool: AccountId,
    pub custody: AccountId,
    pub owner: AccountId,
}

/// The identities that an initialization puts on record, and what it did.
pub open spec fn initialize_receipt(
    accounts: InitializeVault,
    initialized: bool,
    created: Option<CreateAccount>,
) -> InitializeReceipt {
    InitializeReceipt {
        initialized,
        created,
        vault: accounts.vault.key,
        pool: accounts.vault_pool,
        custody: accounts.vault_pool_skt_account,
        owner: accounts.vault_pool_owner,
    }
}

/// The nonce under which the pool of a vault must derive: the one that the vault's record
/// holds, or the one given where the vault has no record yet.
pub open spec fn vault_nonce(accounts: InitializeVault, vault_bump: u8) -> u8 {
    match accounts.vault.data {
        Some(record) => record.vault_bump,
        None => vault_bump,
    }
}

/// The outcome of an initialization on a ledger: the ledger and the vault's record after it
/// and its receipt, or the failure, after which both are as before.
///
/// `authorized` says that the vault's pool is the sub-account that derives under the vault's
/// nonce (`vault_nonce`).
///
/// A vault is initialized once. On a vault without a record the pool must be authorized
/// (`ErrorCustom` otherwise); then token type and nonce as given become its record. A vault
/// that has a record keeps it, whatever token type and nonce are given, and its
/// initialization never fails.
///
/// Either way the custody account is opened where it is no token-holding account yet and the
/// pool is authorized: empty, of the token type `skt_mint`, with the pool as its authority.
/// Where it exists it is left as it is.
pub open spec fn initialize_outcome(
    ledger: LedgerView,
    accounts: InitializeVault,
    authorized: bool,
    token_type: AccountId,
    vault_bump: u8,
) -> Result<(LedgerView, Vault, InitializeReceipt), ErrorCode> {
    let fresh = accounts.vault.data is None;
    let record = match accounts.vault.data {
        Some(record) => record,
        None => Vault { token_type, vault_bump },
    };
    if fresh && !authorized {
        Err(ErrorCode::ErrorCustom)
    } else if authorized && !ledger.tokens.contains_key(accounts.vault_pool_skt_account) {
        Ok(
            (
                LedgerView {
                    tokens: ledger.tokens.insert(
                        accounts.vault_pool_skt_account,
                        TokenAccount {
                            mint: accounts.skt_mint,
                            authority: accounts.vault_pool,
                            amount: 0,
                        },
                    ),
                    lamports: ledger.lamports,
                },
                record,
                initialize_receipt(
                    accounts,
                    fresh,
                    Some(
                        CreateAccount {
                            payer: accounts.payer,
                            account: accounts.vault_pool_skt_account,
                            authority: accounts.vault_pool,
                            mint: accounts.skt_mint,
                        },
                    ),
                ),
            ),
        )
    } else {
        Ok((ledger, record, initialize_receipt(accounts, fresh, None)))
    }
}

/// The accounts of an initialization once the vault's record is `vault`.
pub open spec fn with_vault_record(accounts: InitializeVault, vault: Vault) -> InitializeVault {
    InitializeVault { vault: Account { key: accounts.vault.key, data: Some(vault) }, ..accounts }
}

/// Initializes a vault, given the outcome of deriving its signing authority under the vault's
/// nonce: the one in its record, or `vault_bump` where it has no record yet.
///
/// On success the vault has a record: the one it had, or else token type and nonce as given.
/// The custody account is opened where it was missing and the derivation gave the vault's
/// pool. On failure nothing has changed.
pub fn initialize_vault_with_authority(
    ctx: &mut Context<InitializeVault>,
    authority: Result<AccountId, DerivationError>,
    token_type: AccountId,
    vault_bump: u8,
) -> (r: Result<InitializeReceipt, ErrorCode>)
    ensures
        final(ctx).program_id == old(ctx).program_id,
        match initialize_outcome(
            old(ctx).ledger@,
            old(ctx).accounts,
            signs_for(authority, old(ctx).accounts.vault_pool),
            token_type,
            vault_bump,
        ) {
            Ok((after, vault, receipt)) => {
                &&& r == Ok::<InitializeReceipt, ErrorCode>(receipt)
                &&& final(ctx).ledger@ == after
                &&& final(ctx).accounts == with_vault_record(old(ctx).accounts, vault)
            },
            Err(e) => {
                &&& r == Err::<InitializeReceipt, ErrorCode>(e)
                &&& final(ctx).ledger@ == old(ctx).ledger@
                &&& final(ctx).accounts == old(ctx).accounts
            },
        },
{
    let vault = ctx.accounts.vault.key;
    let pool = ctx.accounts.vault_pool;
    let custody = ctx.accounts.vault_pool_skt_account;
    let owner = ctx.accounts.vault_pool_owner;
    let initialized = ctx.accounts.vault.data.is_none();
    let authorized = authority_signs(&authority, &ctx.accounts.vault_pool);
    if initialized && !authorized {
        return Err(ErrorCode::ErrorCustom);
    }
    let mut created: Option<CreateAccount> = None;
    if authorized && ctx.ledger.token_account(&custody).is_none() {
        let opened = ctx.ledger.create_account(custody, ctx.accounts.skt_mint, pool);
        assert(opened is Ok);
        created = Some(
            CreateAccount {
                payer: ctx.accounts.payer,
                account: custody,
                authority: pool,
                mint: ctx.accounts.skt_mint,
            },
        );
    }

    if initialized {
        ctx.accounts.vault.data = Some(Vault { token_type, vault_bump });
    }

    Ok(InitializeReceipt { initialized, created, vault, pool, custody, owner })
}

/// Initializes a vault: validates the nonce, opens the custody account if there is none yet,
/// and records token type and nonce. A vault that is initialized already keeps its record, and
/// gets its custody account if that is missing.
///
/// The signing authority is derived from the vault's identifier and the vault's nonce: the one
/// in its record, or `vault_bump` where it has no record yet. Where that does not give the
/// vault's pool, a vault without a record is not initialized, and no custody account is
/// opened.
pub fn initialize_vault(ctx: &mut Context<InitializeVault>, token_type: AccountId, vault_bump: u8) -> (r:
    Result<InitializeReceipt, ErrorCode>)
    ensures
        final(ctx).program_id == old(ctx).program_id,
        match initialize_outcome(
            old(ctx).ledger@,
            old(ctx).accounts,
            pool_is_derived(
                old(ctx).program_id,
                old(ctx).accounts.vault.key,
                vault_nonce(old(ctx).accounts, vault_bump),
                old(ctx).accounts.vault_pool,
            ),
            token_type,
            vault_bump,
        ) {
            Ok((after, vault, receipt)) => {
                &&& r == Ok::<InitializeReceipt, ErrorCode>(receipt)
                &&& final(ctx).ledger@ == after
                &&& final(ctx).accounts == with_vault_record(old(ctx).accounts, vault)
            },
            Err(e) => {
                &&& r == Err::<InitializeReceipt, ErrorCode>(e)
                &&& final(ctx).ledger@ == old(ctx).ledger@
                &&& final(ctx).accounts == old(ctx).accounts
            },
        },
{
    let nonce = match ctx.accounts.vault.data {
        Some(record) => record.vault_bump,
        None => vault_bump,
    };
    let authority = vault_authority(&ctx.program_id, &ctx.accounts.vault.key, nonce);
    initialize_vault_with_authority(ctx, authority, token_type, vault_bump)
}

/// What a withdrawal did: the token leg and the native-currency leg, each only if its amount
/// was not zero, and the balances to put on record, those that custody and the vault hold
/// after it.
#[derive(Clone, Copy, Debug, PartialEq, Eq)]
pub struct WithdrawReceipt {
    pub token: Option<CustodyTransfer>,
    pub native: Option<NativeTransfer>,
    /// The token units left in custody.
    pub custody_balance: u64,
    /// The native currency left in the vault, in base units.
    pub vault_lamports: u64,
}

/// The outcome of a withdrawal on a ledger: the ledger after it and its receipt, or the
/// failure, after which the ledger is as before.
///
/// The caller must be an admin and the token amount under the cap. Then custody pays the
/// token amount to the caller's token-holding account, for which the vault's pool must sign
/// (`authorized`), and the vault pays the native amount to the caller. A leg of amount zero is
/// left out.
pub open spec fn withdraw_outcome(
    ledger: LedgerView,
    accounts: WithdrawVault,
    authorized: bool,
    spl_amount: u64,
    sol_amount: u64,
) -> Result<(LedgerView, WithdrawReceipt), ErrorCode> {
    if !accounts.global.is_admin(accounts.claimer) {
        Err(ErrorCode::NotAuthorizedAdmin)
    } else if spl_amount >= MAX_WITHDRAW_AMOUNT {
        Err(ErrorCode::ExceedMaxWithdrawAmount)
    } else {
        match token_leg(ledger, accounts, authorized, spl_amount) {
            Err(e) => Err(e),
            Ok(paid) => match native_leg(paid, accounts, sol_amount) {
                Err(e) => Err(e),
                Ok(after) => Ok(
                    (
                        after,
                        WithdrawReceipt {
                            token: if spl_amount == 0 {
                                None
                            } else {
                                Some(
                                    custody_transfer(
                                        accounts.vault,
                                        accounts.vault_pool,
                                        accounts.vault_pool_skt_account,
                                        accounts.claimer_skt_account,
                                        spl_amount,
                                    ),
                                )
                            },
                            native: if sol_amount == 0 {
                                None
                            } else {
                                Some(
                                    NativeTransfer {
                                        from: accounts.vault.key,
                                        to: accounts.claimer,
                                        amount: sol_amount,
                                    },
                                )
                            },
                            custody_balance: after.balance_of(accounts.vault_pool_skt_account),
                            vault_lamports: after.lamports_of(accounts.vault.key),
                        },
                    ),
                ),
            },
        }
    }
}

/// The token leg of a withdrawal: nothing for the amount zero; else the transfer from custody
/// to the caller's token-holding account, which fails with `ErrorCustom` unless the vault's
/// pool signs (`authorized`).
pub open spec fn token_leg(ledger: LedgerView, accounts: WithdrawVault, authorized: bool, spl_amount: u64) -> Result<
    LedgerView,
    ErrorCode,
> {
    if spl_amount == 0 {
        Ok(ledger)
    } else if !authorized {
        Err(ErrorCode::ErrorCustom)
    } else {
        ledger.transfer(
            accounts.vault_pool_skt_account,
            accounts.claimer_skt_account,
            accounts.vault_pool,
            spl_amount,
        )
    }
}

/// The native-currency leg of a withdrawal: nothing for the amount zero; else the transfer
/// from the vault to the caller.
pub open spec fn native_leg(ledger: LedgerView, accounts: WithdrawVault, sol_amount: u64) -> Result<
    LedgerView,
    ErrorCode,
> {
    if sol_amount == 0 {
        Ok(ledger)
    } else {
        ledger.transfer_lamports(accounts.vault.key, accounts.claimer, sol_amount)
    }
}

/// Withdraws tokens and native currency from a vault to the caller, given the outcome of
/// deriving the vault's signing authority.
///
/// On success the ledger is the one after both legs, and the receipt lists them; on failure
/// nothing has changed.
pub fn withdraw_vault_with_authority(
    ctx: &mut Context<WithdrawVault>,
    authority: Result<AccountId, DerivationError>,
    spl_amount: u64,
    sol_amount: u64,
) -> (r: Result<WithdrawReceipt, ErrorCode>)
    ensures
        final(ctx).program_id == old(ctx).program_id,
        final(ctx).accounts == old(ctx).accounts,
        match withdraw_outcome(
            old(ctx).ledger@,
            old(ctx).accounts,
            signs_for(authority, old(ctx).accounts.vault_pool),
            spl_amount,
            sol_amount,
        ) {
            Ok((after, receipt)) => r == Ok::<WithdrawReceipt, ErrorCode>(receipt) && final(ctx).ledger@
                == after,
            Err(e) => r == Err::<WithdrawReceipt, ErrorCode>(e) && final(ctx).ledger@ == old(ctx).ledger@,
        },
{
    match require_admin(&ctx.accounts.claimer, &ctx.accounts.global) {
        Err(e) => { return Err(e); },
        Ok(()) => {},
    }

    if spl_amount >= MAX_WITHDRAW_AMOUNT {
        return Err(ErrorCode::ExceedMaxWithdrawAmount);
    }

    let mut ledger = ctx.ledger.snapshot();
    let mut token: Option<CustodyTransfer> = None;
    if spl_amount > 0 {
        if !authority_signs(&authority, &ctx.accounts.vault_pool) {
            return Err(ErrorCode::ErrorCustom);
        }
        match ledger.transfer(
            &ctx.accounts.vault_pool_skt_account,
            &ctx.accounts.claimer_skt_account,
            &ctx.accounts.vault_pool,
            spl_amount,
        ) {
            Err(e) => { return Err(e); },
            Ok(()) => {},
        }
        token = Some(
            CustodyTransfer {
                from: ctx.accounts.vault_pool_skt_account,
                to: ctx.accounts.claimer_skt_account,
                authority: ctx.accounts.vault_pool,
                amount: spl_amount,
                vault: ctx.accounts.vault.key,
                vault_bump: ctx.accounts.vault.data.vault_bump,
            },
        );
    }

    let mut native: Option<NativeTransfer> = None;
    if sol_amount > 0 {
        match ledger.transfer_lamports(&ctx.accounts.vault.key, &ctx.accounts.claimer, sol_amount) {
            Err(e) => { return Err(e); },
            Ok(()) => {},
        }
        native = Some(
            NativeTransfer { from: ctx.accounts.vault.key, to: ctx.accounts.claimer, amount: sol_amount },
        );
    }

    let custody_balance = ledger.balance_of(&ctx.accounts.vault_pool_skt_account);
    let vault_lamports = ledger.lamports_of(&ctx.accounts.vault.key);
    ctx.ledger = ledger;
    Ok(WithdrawReceipt { token, native, custody_balance, vault_lamports })
}

/// Withdraws tokens and native currency from a vault to the caller, who must be an admin.
///
/// The vault's signing authority is derived from the vault's identifier and its stored nonce;
/// tokens are paid only if that gives the vault's pool.
pub fn withdraw_vault(ctx: &mut Context<WithdrawVault>, spl_amount: u64, sol_amount: u64) -> (r: Result<
    WithdrawReceipt,
    ErrorCode,
>)
    ensures
        final(ctx).program_id == old(ctx).program_id,
        final(ctx).accounts == old(ctx).accounts,
        match withdraw_outcome(
            old(ctx).ledger@,
            old(ctx).accounts,
            pool_is_derived(
                old(ctx).program_id,
                old(ctx).accounts.vault.key,
                old(ctx).accounts.vault.data.vault_bump,
                old(ctx).accounts.vault_pool,
            ),
            spl_amount,
            sol_amount,
        ) {
            Ok((after, receipt)) => r == Ok::<WithdrawReceipt, ErrorCode>(receipt) && final(ctx).ledger@
                == after,
            Err(e) => r == Err::<WithdrawReceipt, ErrorCode>(e) && final(ctx).ledger@ == old(ctx).ledger@,
        },
{
    let authority = vault_authority(
        &ctx.program_id,
        &ctx.accounts.vault.key,
        ctx.accounts.vault.data.vault_bump,
    );
    withdraw_vault_with_authority(ctx, authority, spl_amount, sol_amount)
}

/// What a claim did: the transfer out of custody, and the event that tells of it.
#[derive(Clone, Copy, Debug, PartialEq, Eq)]
pub struct ClaimReceipt {
    pub transfer: CustodyTransfer,
    pub event: ClaimSKTEvent,
}

/// The outcome of a claim on a ledger: the ledger after it and its receipt, or the failure,
/// after which the ledger is as before.
///
/// Custody pays `amount` to the caller's token-holding account, whoever the caller is; the
/// vault's pool must sign for it (`authorized`).
pub open spec fn claim_outcome(ledger: LedgerView, accounts: ClaimSkt, authorized: bool, amount: u64) -> Result<
    (LedgerView, ClaimReceipt),
    ErrorCode,
> {
    if !authorized {
        Err(ErrorCode::ErrorCustom)
    } else {
        match ledger.transfer(
            accounts.vault_pool_skt_account,
            accounts.claimer_skt_account,
            accounts.vault_pool,
            amount,
        ) {
            Err(e) => Err(e),
            Ok(after) => Ok(
                (
                    after,
                    ClaimReceipt {
                        transfer: custody_transfer(
                            accounts.vault,
                            accounts.vault_pool,
                            accounts.vault_pool_skt_account,
                            accounts.claimer_skt_account,
                            amount,
                        ),
                        event: ClaimSKTEvent { claimer: accounts.claimer, amount },
                    },
                ),
            ),
        }
    }
}

/// Pays `amount` tokens from custody to the caller, given the outcome of deriving the vault's
/// signing authority.
///
/// On success the ledger is the one after the transfer, and the receipt holds the event to
/// emit; on failure nothing has changed.
pub fn claim_skt_with_authority(
    ctx: &mut Context<ClaimSkt>,
    authority: Result<AccountId, DerivationError>,
    amount: u64,
) -> (r: Result<ClaimReceipt, ErrorCode>)
    ensures
        final(ctx).program_id == old(ctx).program_id,
        final(ctx).accounts == old(ctx).accounts,
        match claim_outcome(
            old(ctx).ledger@,
            old(ctx).accounts,
            signs_for(authority, old(ctx).accounts.vault_pool),
            amount,
        ) {
            Ok((after, receipt)) => r == Ok::<ClaimReceipt, ErrorCode>(receipt) && final(ctx).ledger@
                == after,
            Err(e) => r == Err::<ClaimReceipt, ErrorCode>(e) && final(ctx).ledger@ == old(ctx).ledger@,
        },
{
    if !authority_signs(&authority, &ctx.accounts.vault_pool) {
        return Err(ErrorCode::ErrorCustom);
    }
    match ctx.ledger.transfer(
        &ctx.accounts.vault_pool_skt_account,
        &ctx.accounts.claimer_skt_account,
        &ctx.accounts.vault_pool,
        amount,
    ) {
        Err(e) => { return Err(e); },
        Ok(()) => {},
    }
    Ok(
        ClaimReceipt {
            transfer: CustodyTransfer {
                from: ctx.accounts.vault_pool_skt_account,
                to: ctx.accounts.claimer_skt_account,
                authority: ctx.accounts.vault_pool,
                amount,
                vault: ctx.accounts.vault.key,
                vault_bump: ctx.accounts.vault.data.vault_bump,
            },
            event: ClaimSKTEvent { claimer: ctx.accounts.claimer, amount },
        },
    )
}

/// Pays `amount` tokens from custody to the caller. No caller is turned away.
///
/// The vault's signing authority is derived from the vault's identifier and its stored nonce;
/// the transfer is made only if that gives the vault's pool.
pub fn claim_skt(ctx: &mut Context<ClaimSkt>, amount: u64) -> (r: Result<ClaimReceipt, ErrorCode>)
    ensures
        final(ctx).program_id == old(ctx).program_id,
        final(ctx).accounts == old(ctx).accounts,
        match claim_outcome(
            old(ctx).ledger@,
            old(ctx).accounts,
            pool_is_derived(
                old(ctx).program_id,
                old(ctx).accounts.vault.key,
                old(ctx).accounts.vault.data.vault_bump,
                old(ctx).accounts.vault_pool,
            ),
            amount,
        ) {
            Ok((after, receipt)) => r == Ok::<ClaimReceipt, ErrorCode>(receipt) && final(ctx).ledger@
                == after,
            Err(e) => r == Err::<ClaimReceipt, ErrorCode>(e) && final(ctx).ledger@ == old(ctx).ledger@,
        },
{
    let authority = vault_authority(
        &ctx.program_id,
        &ctx.accounts.vault.key,
        ctx.accounts.vault.data.vault_bump,
    );
    claim_skt_with_authority(ctx, authority, amount)
}

} // verus!
