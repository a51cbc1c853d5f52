use anchor_lang::prelude::Pubkey;
use raffle_vault::account::AccountId;
use raffle_vault::authority::DerivationError;
use raffle_vault::constants::{LAMPORTS_PER_SOL, MAX_WITHDRAW_AMOUNT, VAULT_SKT_SEED_PREFIX};
use raffle_vault::ins::{Account, ClaimSkt, Context, InitializeVault, WithdrawVault};
use raffle_vault::ledger::{Ledger, TokenAccount};
use raffle_vault::state::{ClaimSKTEvent, ErrorCode, Global, Vault};
use raffle_vault::vault::{
    claim_skt, claim_skt_with_authority, initialize_vault, initialize_vault_with_authority,
    withdraw_vault, withdraw_vault_with_authority, ClaimReceipt, CreateAccount, CustodyTransfer,
    InitializeReceipt, NativeTransfer, WithdrawReceipt,
};

const PROGRAM: [u8; 32] = [42; 32];
const VAULT: [u8; 32] = [1; 32];
const CUSTODY: [u8; 32] = [2; 32];
const ADMIN: [u8; 32] = [3; 32];
const ADMIN_TOKENS: [u8; 32] = [4; 32];
const STRANGER: [u8; 32] = [5; 32];
const STRANGER_TOKENS: [u8; 32] = [6; 32];
const MINT: [u8; 32] = [7; 32];
const PAYER: [u8; 32] = [8; 32];

fn id(bytes: [u8; 32]) -> AccountId {
    AccountId::new(bytes)
}

/// The pool of the vault and the nonce that gives it, as the outside derivation finds them.
fn pool() -> (AccountId, u8) {
    let (key, bump) = Pubkey::find_program_address(
        &[&VAULT_SKT_SEED_PREFIX[..], &VAULT[..]],
        &Pubkey::new_from_array(PROGRAM),
    );
    (AccountId::new(key.to_bytes()), bump)
}

fn ledger_with(custody: u64, vault_lamports: u64) -> Ledger {
    let (pool, _) = pool();
    let mut ledger = Ledger::new();
    ledger.set_token_account(id(CUSTODY), TokenAccount { mint: id(MINT), authority: pool, amount: custody });
    ledger.set_token_account(
        id(ADMIN_TOKENS),
        TokenAccount { mint: id(MINT), authority: id(ADMIN), amount: 0 },
    );
    ledger.set_token_account(
        id(STRANGER_TOKENS),
        TokenAccount { mint: id(MINT), authority: id(STRANGER), amount: 11 },
    );
    ledger.set_lamports(id(VAULT), vault_lamports);
    ledger.set_lamports(id(ADMIN), 1_000);
    ledger
}

fn withdrawal(claimer: [u8; 32], tokens: [u8; 32], custody: u64, vault_lamports: u64) -> Context<WithdrawVault> {
    let (pool, bump) = pool();
    Context {
        program_id: id(PROGRAM),
        ledger: ledger_with(custody, vault_lamports),
        accounts: WithdrawVault {
            claimer: id(claimer),
            global: Global { authority: id(PAYER), authorized_admins: vec![id(ADMIN)] },
            vault: Account { key: id(VAULT), data: Vault { token_type: id(MINT), vault_bump: bump } },
            vault_pool: pool,
            vault_pool_skt_account: id(CUSTODY),
            claimer_skt_account: id(tokens),
        },
    }
}

fn custody_transfer(to: [u8; 32], amount: u64) -> CustodyTransfer {
    let (pool, bump) = pool();
    CustodyTransfer {
        from: id(CUSTODY),
        to: id(to),
        authority: pool,
        amount,
        vault: id(VAULT),
        vault_bump: bump,
    }
}

#[test]
fn cap_is_ten_thousand_display_units() {
    assert_eq!(LAMPORTS_PER_SOL, 1_000_000_000);
    assert_eq!(MAX_WITHDRAW_AMOUNT, 10_000_000_000_000);
}

#[test]
fn admin_withdraws_9999_tokens_and_no_native_currency() {
    let mut ctx = withdrawal(ADMIN, ADMIN_TOKENS, 9_999, 50);
    let r = withdraw_vault(&mut ctx, 9_999, 0);
    assert_eq!(
        r,
        Ok(WithdrawReceipt {
            token: Some(custody_transfer(ADMIN_TOKENS, 9_999)),
            native: None,
            custody_balance: 0,
            vault_lamports: 50,
        })
    );
    assert_eq!(ctx.ledger.balance_of(&id(CUSTODY)), 0);
    assert_eq!(ctx.ledger.balance_of(&id(ADMIN_TOKENS)), 9_999);
    assert_eq!(ctx.ledger.lamports_of(&id(VAULT)), 50);
    assert_eq!(ctx.ledger.lamports_of(&id(ADMIN)), 1_000);
}

#[test]
fn admin_withdraws_from_a_larger_custody_balance() {
    let mut ctx = withdrawal(ADMIN, ADMIN_TOKENS, 1_000_000, 50);
    assert!(withdraw_vault(&mut ctx, 9_999, 0).is_ok());
    assert_eq!(ctx.ledger.balance_of(&id(CUSTODY)), 1_000_000 - 9_999);
    assert_eq!(ctx.ledger.balance_of(&id(ADMIN_TOKENS)), 9_999);
    assert_eq!(ctx.ledger.lamports_of(&id(VAULT)), 50);
}

#[test]
fn stranger_cannot_withdraw_anything() {
    for (spl, sol) in [(0u64, 0u64), (1, 0), (0, 1), (9_999, 7), (MAX_WITHDRAW_AMOUNT, 0), (u64::MAX, u64::MAX)] {
        let mut ctx = withdrawal(STRANGER, STRANGER_TOKENS, 1_000_000, 50);
        assert_eq!(withdraw_vault(&mut ctx, spl, sol), Err(ErrorCode::NotAuthorizedAdmin));
        assert_eq!(ctx.ledger.balance_of(&id(CUSTODY)), 1_000_000);
        assert_eq!(ctx.ledger.balance_of(&id(STRANGER_TOKENS)), 11);
        assert_eq!(ctx.ledger.lamports_of(&id(VAULT)), 50);
        assert_eq!(ctx.ledger.lamports_of(&id(STRANGER)), 0);
    }
}

#[test]
fn withdrawal_at_the_cap_is_refused_whatever_custody_holds() {
    for custody in [0u64, 9_999, u64::MAX] {
        for spl in [MAX_WITHDRAW_AMOUNT, MAX_WITHDRAW_AMOUNT + 1, u64::MAX] {
            let mut ctx = withdrawal(ADMIN, ADMIN_TOKENS, custody, 50);
            assert_eq!(withdraw_vault(&mut ctx, spl, 1), Err(ErrorCode::ExceedMaxWithdrawAmount));
            assert_eq!(ctx.ledger.balance_of(&id(CUSTODY)), custody);
            assert_eq!(ctx.ledger.lamports_of(&id(VAULT)), 50);
        }
    }
}

#[test]
fn withdrawal_just_under_the_cap_is_paid() {
    let mut ctx = withdrawal(ADMIN, ADMIN_TOKENS, MAX_WITHDRAW_AMOUNT, 50);
    assert!(withdraw_vault(&mut ctx, MAX_WITHDRAW_AMOUNT - 1, 0).is_ok());
    assert_eq!(ctx.ledger.balance_of(&id(CUSTODY)), 1);
    assert_eq!(ctx.ledger.balance_of(&id(ADMIN_TOKENS)), 9_999_999_999_999);
}

#[test]
fn withdrawal_of_more_than_custody_holds_is_refused() {
    let mut ctx = withdrawal(ADMIN, ADMIN_TOKENS, 9_998, 50);
    assert_eq!(withdraw_vault(&mut ctx, 9_999, 0), Err(ErrorCode::NotEnoughTokens));
    assert_eq!(ctx.ledger.balance_of(&id(CUSTODY)), 9_998);
    assert_eq!(ctx.ledger.balance_of(&id(ADMIN_TOKENS)), 0);
}

#[test]
fn withdrawal_of_native_currency_alone() {
    let mut ctx = withdrawal(ADMIN, ADMIN_TOKENS, 100, 50);
    let r = withdraw_vault(&mut ctx, 0, 20);
    assert_eq!(
        r,
        Ok(WithdrawReceipt {
            token: None,
            native: Some(NativeTransfer { from: id(VAULT), to: id(ADMIN), amount: 20 }),
            custody_balance: 100,
            vault_lamports: 30,
        })
    );
    assert_eq!(ctx.ledger.lamports_of(&id(VAULT)), 30);
    assert_eq!(ctx.ledger.lamports_of(&id(ADMIN)), 1_020);
    assert_eq!(ctx.ledger.balance_of(&id(CUSTODY)), 100);
}

#[test]
fn withdrawal_of_both() {
    let mut ctx = withdrawal(ADMIN, ADMIN_TOKENS, 100, 50);
    let r = withdraw_vault(&mut ctx, 60, 50).unwrap();
    assert_eq!(r.token, Some(custody_transfer(ADMIN_TOKENS, 60)));
    assert_eq!(r.native, Some(NativeTransfer { from: id(VAULT), to: id(ADMIN), amount: 50 }));
    assert_eq!(r.custody_balance, 40);
    assert_eq!(r.vault_lamports, 0);
    assert_eq!(ctx.ledger.balance_of(&id(CUSTODY)), 40);
    assert_eq!(ctx.ledger.balance_of(&id(ADMIN_TOKENS)), 60);
    assert_eq!(ctx.ledger.lamports_of(&id(VAULT)), 0);
    assert_eq!(ctx.ledger.lamports_of(&id(ADMIN)), 1_050);
}

#[test]
fn withdrawal_of_nothing_does_nothing() {
    let mut ctx = withdrawal(ADMIN, ADMIN_TOKENS, 100, 50);
    assert_eq!(
        withdraw_vault(&mut ctx, 0, 0),
        Ok(WithdrawReceipt { token: None, native: None, custody_balance: 100, vault_lamports: 50 })
    );
    assert_eq!(ctx.ledger.balance_of(&id(CUSTODY)), 100);
    assert_eq!(ctx.ledger.lamports_of(&id(VAULT)), 50);
}

#[test]
fn failed_native_leg_undoes_the_token_leg() {
    let mut ctx = withdrawal(ADMIN, ADMIN_TOKENS, 100, 50);
    assert_eq!(withdraw_vault(&mut ctx, 60, 51), Err(ErrorCode::NotEnoughTokens));
    assert_eq!(ctx.ledger.balance_of(&id(CUSTODY)), 100);
    assert_eq!(ctx.ledger.balance_of(&id(ADMIN_TOKENS)), 0);
    assert_eq!(ctx.ledger.lamports_of(&id(VAULT)), 50);
    assert_eq!(ctx.ledger.lamports_of(&id(ADMIN)), 1_000);
}

#[test]
fn tokens_are_paid_only_under_the_stored_nonce() {
    let (_, bump) = pool();
    let mut ctx = withdrawal(ADMIN, ADMIN_TOKENS, 100, 50);
    ctx.accounts.vault.data.vault_bump = bump.wrapping_sub(1);
    assert_eq!(withdraw_vault(&mut ctx, 60, 0), Err(ErrorCode::ErrorCustom));
    assert_eq!(ctx.ledger.balance_of(&id(CUSTODY)), 100);
    assert!(withdraw_vault(&mut ctx, 0, 5).is_ok());
    assert_eq!(ctx.ledger.lamports_of(&id(VAULT)), 45);
}

#[test]
fn tokens_are_paid_only_for_the_derived_pool() {
    let mut ctx = withdrawal(ADMIN, ADMIN_TOKENS, 100, 50);
    ctx.accounts.vault_pool = id(STRANGER);
    ctx.ledger.set_token_account(
        id(CUSTODY),
        TokenAccount { mint: id(MINT), authority: id(STRANGER), amount: 100 },
    );
    assert_eq!(withdraw_vault(&mut ctx, 60, 0), Err(ErrorCode::ErrorCustom));
    assert_eq!(ctx.ledger.balance_of(&id(CUSTODY)), 100);
}

#[test]
fn withdrawal_with_a_given_authority() {
    let (pool, _) = pool();
    let mut ctx = withdrawal(ADMIN, ADMIN_TOKENS, 100, 50);
    assert_eq!(
        withdraw_vault_with_authority(&mut ctx, Err(DerivationError::InvalidSeeds), 1, 0),
        Err(ErrorCode::ErrorCustom)
    );
    assert_eq!(
        withdraw_vault_with_authority(&mut ctx, Ok(id(ADMIN)), 1, 0),
        Err(ErrorCode::ErrorCustom)
    );
    assert_eq!(
        withdraw_vault_with_authority(&mut ctx, Err(DerivationError::InvalidSeeds), 0, 1),
        Ok(WithdrawReceipt {
            token: None,
            native: Some(NativeTransfer { from: id(VAULT), to: id(ADMIN), amount: 1 }),
            custody_balance: 100,
            vault_lamports: 49,
        })
    );
    assert_eq!(
        withdraw_vault_with_authority(&mut ctx, Ok(pool), 100, 0),
        Ok(WithdrawReceipt {
            token: Some(custody_transfer(ADMIN_TOKENS, 100)),
            native: None,
            custody_balance: 0,
            vault_lamports: 49,
        })
    );
    assert_eq!(ctx.ledger.balance_of(&id(CUSTODY)), 0);
    assert_eq!(ctx.ledger.lamports_of(&id(VAULT)), 49);
}

#[test]
fn withdrawal_into_custody_itself_changes_no_balance() {
    let mut ctx = withdrawal(ADMIN, CUSTODY, 100, 50);
    assert!(withdraw_vault(&mut ctx, 60, 0).is_ok());
    assert_eq!(ctx.ledger.balance_of(&id(CUSTODY)), 100);
}

const SYSTEM: [u8; 32] = [0; 32];

fn initialization(nonce_offset: u8) -> (Context<InitializeVault>, u8) {
    let (pool, bump) = pool();
    let mut ledger = Ledger::new();
    ledger.set_lamports(id(PAYER), 1_000);
    (
        Context {
            program_id: id(PROGRAM),
            ledger,
            accounts: InitializeVault {
                payer: id(PAYER),
                vault: Account { key: id(VAULT), data: None },
                vault_pool: pool,
                vault_pool_owner: id(SYSTEM),
                vault_pool_skt_account: id(CUSTODY),
                skt_mint: id(MINT),
            },
        },
        bump.wrapping_sub(nonce_offset),
    )
}

fn nothing_done(pool: AccountId) -> InitializeReceipt {
    InitializeReceipt {
        initialized: false,
        created: None,
        vault: id(VAULT),
        pool,
        custody: id(CUSTODY),
        owner: id(SYSTEM),
    }
}

#[test]
fn initialization_opens_custody_and_records_the_vault() {
    let (pool, bump) = pool();
    let (mut ctx, nonce) = initialization(0);
    let r = initialize_vault(&mut ctx, id(MINT), nonce);
    assert_eq!(
        r,
        Ok(InitializeReceipt {
            initialized: true,
            created: Some(CreateAccount {
                payer: id(PAYER),
                account: id(CUSTODY),
                authority: pool,
                mint: id(MINT),
            }),
            vault: id(VAULT),
            pool,
            custody: id(CUSTODY),
            owner: id(SYSTEM),
        })
    );
    assert_eq!(
        ctx.ledger.token_account(&id(CUSTODY)),
        Some(TokenAccount { mint: id(MINT), authority: pool, amount: 0 })
    );
    assert_eq!(ctx.accounts.vault.data, Some(Vault { token_type: id(MINT), vault_bump: bump }));
    assert_eq!(ctx.accounts.vault.key, id(VAULT));
    assert_eq!(ctx.ledger.lamports_of(&id(PAYER)), 1_000);
}

#[test]
fn initialization_reports_the_owner_of_the_pool() {
    let (mut ctx, nonce) = initialization(0);
    ctx.accounts.vault_pool_owner = id(STRANGER);
    let r = initialize_vault(&mut ctx, id(MINT), nonce).unwrap();
    assert_eq!(r.owner, id(STRANGER));
    let again = initialize_vault(&mut ctx, id(MINT), nonce).unwrap();
    assert_eq!(again.owner, id(STRANGER));
}

#[test]
fn initialization_twice_is_initialization_once() {
    let (pool, bump) = pool();
    let (mut ctx, nonce) = initialization(0);
    assert!(initialize_vault(&mut ctx, id(MINT), nonce).is_ok());
    let custody = ctx.ledger.token_account(&id(CUSTODY));
    let record = ctx.accounts.vault;
    let again = initialize_vault(&mut ctx, id(MINT), nonce);
    assert_eq!(again, Ok(nothing_done(pool)));
    assert_eq!(ctx.ledger.token_account(&id(CUSTODY)), custody);
    assert_eq!(ctx.accounts.vault, record);
    assert_eq!(record.data, Some(Vault { token_type: id(MINT), vault_bump: bump }));
}

#[test]
fn second_initialization_with_another_token_type_changes_nothing() {
    let (pool, bump) = pool();
    let (mut ctx, nonce) = initialization(0);
    assert!(initialize_vault(&mut ctx, id(MINT), nonce).is_ok());
    let again = initialize_vault(&mut ctx, id(STRANGER), nonce);
    assert_eq!(again, Ok(nothing_done(pool)));
    assert_eq!(ctx.accounts.vault.data, Some(Vault { token_type: id(MINT), vault_bump: bump }));
    assert_eq!(
        ctx.ledger.token_account(&id(CUSTODY)),
        Some(TokenAccount { mint: id(MINT), authority: pool, amount: 0 })
    );
}

#[test]
fn second_initialization_with_another_nonce_changes_nothing() {
    let (pool, bump) = pool();
    let (mut ctx, nonce) = initialization(0);
    assert!(initialize_vault(&mut ctx, id(MINT), nonce).is_ok());
    for other in [bump.wrapping_sub(1), bump.wrapping_add(1), 0, 255] {
        let again = initialize_vault(&mut ctx, id(STRANGER), other);
        assert_eq!(again, Ok(nothing_done(pool)));
        assert_eq!(ctx.accounts.vault.data, Some(Vault { token_type: id(MINT), vault_bump: bump }));
    }
    assert_eq!(
        ctx.ledger.token_account(&id(CUSTODY)),
        Some(TokenAccount { mint: id(MINT), authority: pool, amount: 0 })
    );
}

#[test]
fn second_initialization_with_another_pool_changes_nothing() {
    let (pool, bump) = pool();
    let (mut ctx, nonce) = initialization(0);
    assert!(initialize_vault(&mut ctx, id(MINT), nonce).is_ok());
    ctx.accounts.vault_pool = id(STRANGER);
    ctx.accounts.vault_pool_skt_account = id(STRANGER_TOKENS);
    let again = initialize_vault(&mut ctx, id(STRANGER), bump.wrapping_sub(3)).unwrap();
    assert!(!again.initialized);
    assert_eq!(again.created, None);
    assert_eq!(again.pool, id(STRANGER));
    assert_eq!(ctx.accounts.vault.data, Some(Vault { token_type: id(MINT), vault_bump: bump }));
    assert_eq!(ctx.ledger.token_account(&id(STRANGER_TOKENS)), None);
    assert_eq!(
        ctx.ledger.token_account(&id(CUSTODY)),
        Some(TokenAccount { mint: id(MINT), authority: pool, amount: 0 })
    );
}

#[test]
fn stored_nonce_still_signs_after_a_second_initialization() {
    let (pool, bump) = pool();
    let (mut ctx, nonce) = initialization(0);
    assert!(initialize_vault(&mut ctx, id(MINT), nonce).is_ok());
    assert!(initialize_vault(&mut ctx, id(STRANGER), bump.wrapping_sub(1)).is_ok());
    let record = ctx.accounts.vault.data.unwrap();
    let mut ledger = ctx.ledger.snapshot();
    ledger.set_token_account(id(CUSTODY), TokenAccount { mint: id(MINT), authority: pool, amount: 9 });
    ledger.set_token_account(
        id(STRANGER_TOKENS),
        TokenAccount { mint: id(MINT), authority: id(STRANGER), amount: 0 },
    );
    let mut claim = Context {
        program_id: id(PROGRAM),
        ledger,
        accounts: ClaimSkt {
            claimer: id(STRANGER),
            vault: Account { key: id(VAULT), data: record },
            vault_pool: pool,
            vault_pool_skt_account: id(CUSTODY),
            claimer_skt_account: id(STRANGER_TOKENS),
        },
    };
    assert!(claim_skt(&mut claim, 9).is_ok());
    assert_eq!(claim.ledger.balance_of(&id(STRANGER_TOKENS)), 9);
}

fn recorded(stored_nonce: u8) -> Context<InitializeVault> {
    let (mut ctx, _) = initialization(0);
    ctx.accounts.vault.data = Some(Vault { token_type: id(MINT), vault_bump: stored_nonce });
    ctx
}

#[test]
fn initialized_vault_without_custody_gets_it_opened() {
    let (pool, bump) = pool();
    for given in [bump, bump.wrapping_sub(1), 0, 255] {
        let mut ctx = recorded(bump);
        let r = initialize_vault(&mut ctx, id(STRANGER), given);
        assert_eq!(
            r,
            Ok(InitializeReceipt {
                initialized: false,
                created: Some(CreateAccount {
                    payer: id(PAYER),
                    account: id(CUSTODY),
                    authority: pool,
                    mint: id(MINT),
                }),
                vault: id(VAULT),
                pool,
                custody: id(CUSTODY),
                owner: id(SYSTEM),
            })
        );
        assert_eq!(
            ctx.ledger.token_account(&id(CUSTODY)),
            Some(TokenAccount { mint: id(MINT), authority: pool, amount: 0 })
        );
        assert_eq!(ctx.accounts.vault.data, Some(Vault { token_type: id(MINT), vault_bump: bump }));
        assert_eq!(initialize_vault(&mut ctx, id(STRANGER), given), Ok(nothing_done(pool)));
    }
}

#[test]
fn custody_is_opened_under_the_stored_nonce_only() {
    let (pool, bump) = pool();
    let mut ctx = recorded(bump.wrapping_sub(1));
    assert_eq!(initialize_vault(&mut ctx, id(MINT), bump), Ok(nothing_done(pool)));
    assert_eq!(ctx.ledger.token_account(&id(CUSTODY)), None);
    assert_eq!(
        ctx.accounts.vault.data,
        Some(Vault { token_type: id(MINT), vault_bump: bump.wrapping_sub(1) })
    );
}

#[test]
fn initialized_vault_with_a_given_authority() {
    let (pool, _) = pool();
    let mut ctx = recorded(9);
    assert_eq!(
        initialize_vault_with_authority(&mut ctx, Err(DerivationError::InvalidSeeds), id(PAYER), 1),
        Ok(nothing_done(pool))
    );
    assert_eq!(
        initialize_vault_with_authority(&mut ctx, Ok(id(PAYER)), id(PAYER), 1),
        Ok(nothing_done(pool))
    );
    assert_eq!(ctx.ledger.token_account(&id(CUSTODY)), None);
    let r = initialize_vault_with_authority(&mut ctx, Ok(pool), id(PAYER), 1).unwrap();
    assert!(!r.initialized);
    assert_eq!(
        r.created,
        Some(CreateAccount { payer: id(PAYER), account: id(CUSTODY), authority: pool, mint: id(MINT) })
    );
    assert_eq!(ctx.ledger.balance_of(&id(CUSTODY)), 0);
    assert!(ctx.ledger.token_account(&id(CUSTODY)).is_some());
    assert_eq!(ctx.accounts.vault.data, Some(Vault { token_type: id(MINT), vault_bump: 9 }));
}

#[test]
fn initialization_keeps_a_funded_custody_account() {
    let (pool, bump) = pool();
    let (mut ctx, nonce) = initialization(0);
    ctx.ledger.set_token_account(id(CUSTODY), TokenAccount { mint: id(MINT), authority: pool, amount: 77 });
    let r = initialize_vault(&mut ctx, id(MINT), nonce).unwrap();
    assert!(r.initialized);
    assert_eq!(r.created, None);
    assert_eq!(ctx.ledger.balance_of(&id(CUSTODY)), 77);
    assert_eq!(ctx.accounts.vault.data, Some(Vault { token_type: id(MINT), vault_bump: bump }));
}

#[test]
fn initialization_fails_where_the_nonce_does_not_give_the_pool() {
    let (mut ctx, nonce) = initialization(1);
    assert_eq!(initialize_vault(&mut ctx, id(MINT), nonce), Err(ErrorCode::ErrorCustom));
    assert_eq!(ctx.ledger.token_account(&id(CUSTODY)), None);
    assert_eq!(ctx.accounts.vault.data, None);
}

#[test]
fn initialization_fails_for_a_pool_that_is_not_derived() {
    let (mut ctx, nonce) = initialization(0);
    ctx.accounts.vault_pool = id(STRANGER);
    assert_eq!(initialize_vault(&mut ctx, id(MINT), nonce), Err(ErrorCode::ErrorCustom));
    assert_eq!(ctx.ledger.token_account(&id(CUSTODY)), None);
    assert_eq!(ctx.accounts.vault.data, None);
}

#[test]
fn failed_initialization_can_be_repeated_with_the_right_nonce() {
    let (_, bump) = pool();
    let (mut ctx, nonce) = initialization(1);
    assert_eq!(initialize_vault(&mut ctx, id(MINT), nonce), Err(ErrorCode::ErrorCustom));
    let r = initialize_vault(&mut ctx, id(MINT), bump).unwrap();
    assert!(r.initialized);
    assert_eq!(ctx.accounts.vault.data, Some(Vault { token_type: id(MINT), vault_bump: bump }));
}

#[test]
fn initialization_with_a_given_authority() {
    let (pool, _) = pool();
    let (mut ctx, _) = initialization(0);
    assert_eq!(
        initialize_vault_with_authority(&mut ctx, Err(DerivationError::InvalidSeeds), id(MINT), 9),
        Err(ErrorCode::ErrorCustom)
    );
    assert_eq!(
        initialize_vault_with_authority(&mut ctx, Ok(id(PAYER)), id(MINT), 9),
        Err(ErrorCode::ErrorCustom)
    );
    assert_eq!(ctx.ledger.token_account(&id(CUSTODY)), None);
    let r = initialize_vault_with_authority(&mut ctx, Ok(pool), id(MINT), 9).unwrap();
    assert_eq!(r.owner, id(SYSTEM));
    assert!(r.initialized);
    assert_eq!(ctx.accounts.vault.data, Some(Vault { token_type: id(MINT), vault_bump: 9 }));
    assert_eq!(
        initialize_vault_with_authority(&mut ctx, Err(DerivationError::InvalidSeeds), id(PAYER), 10),
        Ok(nothing_done(pool))
    );
    assert_eq!(ctx.accounts.vault.data, Some(Vault { token_type: id(MINT), vault_bump: 9 }));
}

fn claim(claimer: [u8; 32], tokens: [u8; 32], custody: u64) -> Context<ClaimSkt> {
    let (pool, bump) = pool();
    Context {
        program_id: id(PROGRAM),
        ledger: ledger_with(custody, 0),
        accounts: ClaimSkt {
            claimer: id(claimer),
            vault: Account { key: id(VAULT), data: Vault { token_type: id(MINT), vault_bump: bump } },
            vault_pool: pool,
            vault_pool_skt_account: id(CUSTODY),
            claimer_skt_account: id(tokens),
        },
    }
}

#[test]
fn anyone_claims_any_amount_that_custody_holds() {
    let mut ctx = claim(STRANGER, STRANGER_TOKENS, MAX_WITHDRAW_AMOUNT + 5);
    let r = claim_skt(&mut ctx, MAX_WITHDRAW_AMOUNT);
    assert_eq!(
        r,
        Ok(ClaimReceipt {
            transfer: custody_transfer(STRANGER_TOKENS, MAX_WITHDRAW_AMOUNT),
            event: ClaimSKTEvent { claimer: id(STRANGER), amount: MAX_WITHDRAW_AMOUNT },
        })
    );
    assert_eq!(ctx.ledger.balance_of(&id(CUSTODY)), 5);
    assert_eq!(ctx.ledger.balance_of(&id(STRANGER_TOKENS)), MAX_WITHDRAW_AMOUNT + 11);
}

#[test]
fn claim_of_nothing_still_tells_of_it() {
    let mut ctx = claim(STRANGER, STRANGER_TOKENS, 5);
    let r = claim_skt(&mut ctx, 0).unwrap();
    assert_eq!(r.event, ClaimSKTEvent { claimer: id(STRANGER), amount: 0 });
    assert_eq!(ctx.ledger.balance_of(&id(CUSTODY)), 5);
}

#[test]
fn claim_of_more_than_custody_holds_is_refused() {
    let mut ctx = claim(STRANGER, STRANGER_TOKENS, 5);
    assert_eq!(claim_skt(&mut ctx, 6), Err(ErrorCode::NotEnoughTokens));
    assert_eq!(ctx.ledger.balance_of(&id(CUSTODY)), 5);
    assert_eq!(ctx.ledger.balance_of(&id(STRANGER_TOKENS)), 11);
}

#[test]
fn claim_needs_the_pool_to_sign() {
    let (pool, bump) = pool();
    let mut ctx = claim(STRANGER, STRANGER_TOKENS, 5);
    ctx.accounts.vault.data.vault_bump = bump.wrapping_add(1);
    assert_eq!(claim_skt(&mut ctx, 1), Err(ErrorCode::ErrorCustom));
    assert_eq!(
        claim_skt_with_authority(&mut ctx, Err(DerivationError::MaxSeedLengthExceeded), 1),
        Err(ErrorCode::ErrorCustom)
    );
    assert_eq!(ctx.ledger.balance_of(&id(CUSTODY)), 5);
    assert!(claim_skt_with_authority(&mut ctx, Ok(pool), 1).is_ok());
    assert_eq!(ctx.ledger.balance_of(&id(CUSTODY)), 4);
}

#[test]
fn claim_needs_the_claimers_token_account() {
    let mut ctx = claim(STRANGER, PAYER, 5);
    assert_eq!(claim_skt(&mut ctx, 1), Err(ErrorCode::ErrorCustom));
    assert_eq!(ctx.ledger.balance_of(&id(CUSTODY)), 5);
}
