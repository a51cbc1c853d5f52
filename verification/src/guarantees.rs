use vstd::prelude::*;
use crate::account::AccountId;
use crate::constants::{LAMPORTS_PER_SOL, MAX_WITHDRAW_AMOUNT};
use crate::exchange::{exchange_cost, exchange_grant};
use crate::ins::{ClaimSkt, Convert, InitializeVault, WithdrawVault};
use crate::ledger::LedgerView;
use crate::raffle::RaffleView;
use crate::state::{ErrorCode, Vault};
use crate::vault::{
    claim_outcome, convert_outcome, initialize_outcome, vault_nonce, with_vault_record,
    withdraw_outcome,
};

verus! {

/// A vault is initialized once: on a vault that has a record, an initialization succeeds and
/// leaves the record, token type and nonce, as it is, whatever token type, nonce, pool and
/// other accounts it is given. It opens the custody account where that is missing and the pool
/// derives under the stored nonce, and changes nothing else in the ledger.
pub proof fn initialized_vault_keeps_its_record(
    ledger: LedgerView,
    accounts: InitializeVault,
    authorized: bool,
    token_type: AccountId,
    vault_bump: u8,
)
    requires
        accounts.vault.data is Some,
    ensures
        vault_nonce(accounts, vault_bump) == accounts.vault.data->Some_0.vault_bump,
        initialize_outcome(ledger, accounts, authorized, token_type, vault_bump) matches Ok(
            (after, record, receipt),
        ) && {
            let custody = accounts.vault_pool_skt_account;
            let open = authorized && !ledger.tokens.contains_key(custody);
            &&& record == accounts.vault.data->Some_0
            &&& with_vault_record(accounts, record) == accounts
            &&& !receipt.initialized
            &&& receipt.created is Some == open
            &&& !open ==> after == ledger
            &&& open ==> after == ledger.create_account(
                custody,
                accounts.skt_mint,
                accounts.vault_pool,
            )->Ok_0
        },
{
}

/// A custody account that is missing is opened: where the pool derives under the vault's
/// nonce, an initialization succeeds on a vault with a record as on one without, and
/// afterwards the custody account is a token-holding account. It was opened exactly if it was
/// none before, and is then empty, of the token type `skt_mint`, with the pool as authority.
pub proof fn missing_custody_is_opened(
    ledger: LedgerView,
    accounts: InitializeVault,
    token_type: AccountId,
    vault_bump: u8,
)
    ensures
        initialize_outcome(ledger, accounts, true, token_type, vault_bump) matches Ok(
            (after, _, receipt),
        ) && {
            let custody = accounts.vault_pool_skt_account;
            &&& after.tokens.contains_key(custody)
            &&& receipt.created is Some == !ledger.tokens.contains_key(custody)
            &&& receipt.created is Some ==> receipt.created == Some(
                crate::vault::CreateAccount {
                    payer: accounts.payer,
                    account: custody,
                    authority: accounts.vault_pool,
                    mint: accounts.skt_mint,
                },
            ) && after.tokens[custody] == (crate::ledger::TokenAccount {
                mint: accounts.skt_mint,
                authority: accounts.vault_pool,
                amount: 0,
            })
            &&& ledger.tokens.contains_key(custody) ==> after == ledger
        },
{
}

/// Initialization is idempotent: where it succeeds, a later initialization of the same vault
/// with the same custody account succeeds too, with the same or with another token type or
/// nonce, opens nothing, and leaves the ledger, the custody account in it and the vault's
/// record exactly as the first left them.
///
/// The pool signs in both or in neither, since both are held against the stored nonce; only
/// where the first gave the vault its record may the later one be signed for or not.
pub proof fn initialize_twice_is_initialize_once(
    ledger: LedgerView,
    accounts: InitializeVault,
    authorized: bool,
    token_type: AccountId,
    vault_bump: u8,
    later: InitializeVault,
    later_authorized: bool,
    later_token_type: AccountId,
    later_vault_bump: u8,
)
    requires
        initialize_outcome(ledger, accounts, authorized, token_type, vault_bump) matches Ok(
            (_, vault, _),
        ) && later.vault == with_vault_record(accounts, vault).vault,
        later.vault_pool_skt_account == accounts.vault_pool_skt_account,
        accounts.vault.data is Some ==> later_authorized == authorized,
    ensures
        initialize_outcome(ledger, accounts, authorized, token_type, vault_bump) matches Ok(
            (after, vault, _),
        ) && {
            &&& accounts.vault.data is None ==> after.tokens.contains_key(
                accounts.vault_pool_skt_account,
            )
            &&& initialize_outcome(
                after,
                later,
                later_authorized,
                later_token_type,
                later_vault_bump,
            ) matches Ok((again, record, second))
            &&& again == after
            &&& record == vault
            &&& !second.initialized
            &&& second.created is None
        },
{
}

/// The nonce that a vault records is one under which its pool derives, and a custody account
/// is opened only for a pool that derives under the vault's nonce: it is then empty, with that
/// pool as its authority.
pub proof fn opened_custody_answers_to_the_pool(
    ledger: LedgerView,
    accounts: InitializeVault,
    authorized: bool,
    token_type: AccountId,
    vault_bump: u8,
)
    ensures
        match initialize_outcome(ledger, accounts, authorized, token_type, vault_bump) {
            Ok((after, vault, receipt)) => {
                &&& receipt.initialized == (accounts.vault.data is None)
                &&& receipt.initialized ==> authorized && vault == (Vault { token_type, vault_bump })
                &&& receipt.created is Some ==> authorized
                &&& receipt.created is Some ==> after.tokens[accounts.vault_pool_skt_account]
                    == (crate::ledger::TokenAccount {
                    mint: accounts.skt_mint,
                    authority: accounts.vault_pool,
                    amount: 0,
                })
                &&& receipt.owner == accounts.vault_pool_owner
            },
            Err(_) => accounts.vault.data is None && !authorized,
        },
{
}

/// Nobody but its authority moves tokens out of an account: a transfer succeeds only where
/// the signer is the authority of the account that pays.
pub proof fn only_the_authority_moves_tokens(
    ledger: LedgerView,
    from: AccountId,
    to: AccountId,
    signer: AccountId,
    amount: u64,
)
    ensures
        ledger.transfer(from, to, signer, amount) is Ok ==> ledger.tokens.contains_key(from)
            && ledger.tokens[from].authority == signer,
{
}

/// Tokens leave custody only where the vault's pool signs, and the pool signs only where it is
/// the sub-account derived for the vault: a withdrawal with a token leg, a claim or a conversion
/// that succeeds was authorized, and the pool is the authority of the custody account.
pub proof fn custody_pays_only_under_the_derived_authority(
    ledger: LedgerView,
    withdrawal: WithdrawVault,
    claim: ClaimSkt,
    conversion: Convert,
    authorized: bool,
    amount: u64,
    sol_amount: u64,
    exchange_option: u8,
    is_holder: bool,
)
    ensures
        withdraw_outcome(ledger, withdrawal, authorized, amount, sol_amount) is Ok && amount > 0 ==> {
            &&& authorized
            &&& ledger.tokens[withdrawal.vault_pool_skt_account].authority == withdrawal.vault_pool
        },
        claim_outcome(ledger, claim, authorized, amount) is Ok ==> {
            &&& authorized
            &&& ledger.tokens[claim.vault_pool_skt_account].authority == claim.vault_pool
        },
        convert_outcome(ledger, conversion, authorized, exchange_option, is_holder) matches Ok(
            (after, _),
        ) ==> {
            &&& authorized
            &&& after.tokens[conversion.vault_pool_skt_account].authority == conversion.vault_pool
            &&& ledger.tokens.contains_key(conversion.vault_pool_skt_account)
                ==> ledger.tokens[conversion.vault_pool_skt_account].authority == conversion.vault_pool
        },
{
}

/// A withdrawal by an admin of 10,000 display units of the token or more is refused with
/// `ExceedMaxWithdrawAmount`, whatever the ledger holds.
pub proof fn withdrawal_at_cap_is_refused(
    ledger: LedgerView,
    accounts: WithdrawVault,
    authorized: bool,
    spl_amount: u64,
    sol_amount: u64,
)
    requires
        accounts.global.is_admin(accounts.claimer),
        spl_amount >= 10_000 * LAMPORTS_PER_SOL,
    ensures
        withdraw_outcome(ledger, accounts, authorized, spl_amount, sol_amount) == Err::<
            (LedgerView, crate::vault::WithdrawReceipt),
            ErrorCode,
        >(ErrorCode::ExceedMaxWithdrawAmount),
{
}

/// A withdrawal by a caller who is no admin is refused with `NotAuthorizedAdmin`, whatever
/// the amounts and whatever the ledger holds.
pub proof fn withdrawal_by_stranger_is_refused(
    ledger: LedgerView,
    accounts: WithdrawVault,
    authorized: bool,
    spl_amount: u64,
    sol_amount: u64,
)
    requires
        !accounts.global.is_admin(accounts.claimer),
    ensures
        withdraw_outcome(ledger, accounts, authorized, spl_amount, sol_amount) == Err::<
            (LedgerView, crate::vault::WithdrawReceipt),
            ErrorCode,
        >(ErrorCode::NotAuthorizedAdmin),
{
}

/// A withdrawal by an admin, under the cap, that the balances cover succeeds: custody then
/// holds exactly `spl_amount` token units less and the vault exactly `sol_amount` base units of
/// the native currency less, and the caller holds as much more of each.
///
/// This is stated of withdrawals that lack nothing but, possibly, the balance: the vault's
/// pool signs for custody, and each leg goes between two different accounts of which the
/// second has room for the amount.
pub proof fn admin_withdrawal_pays_exactly(
    ledger: LedgerView,
    accounts: WithdrawVault,
    authorized: bool,
    spl_amount: u64,
    sol_amount: u64,
)
    requires
        accounts.global.is_admin(accounts.claimer),
        spl_amount < MAX_WITHDRAW_AMOUNT,
        ledger.balance_of(accounts.vault_pool_skt_account) >= spl_amount,
        ledger.lamports_of(accounts.vault.key) >= sol_amount,
        spl_amount > 0 ==> authorized && ledger.admits_transfer(
            accounts.vault_pool_skt_account,
            accounts.claimer_skt_account,
            accounts.vault_pool,
            spl_amount,
        ),
        sol_amount > 0 ==> ledger.admits_lamports(accounts.vault.key, accounts.claimer, sol_amount),
    ensures
        withdraw_outcome(ledger, accounts, authorized, spl_amount, sol_amount) matches Ok((after, _))
            && {
            &&& after.balance_of(accounts.vault_pool_skt_account) == ledger.balance_of(
                accounts.vault_pool_skt_account,
            ) - spl_amount
            &&& after.lamports_of(accounts.vault.key) == ledger.lamports_of(accounts.vault.key)
                - sol_amount
            &&& spl_amount > 0 ==> after.balance_of(accounts.claimer_skt_account) == ledger.balance_of(
                accounts.claimer_skt_account,
            ) + spl_amount
            &&& sol_amount > 0 ==> after.lamports_of(accounts.claimer) == ledger.lamports_of(
                accounts.claimer,
            ) + sol_amount
        },
{
}

/// A conversion that succeeds charges the caller exactly the tabled price of the option, to
/// the vault, and grants exactly the tabled token units, out of custody.
///
/// The balances are stated where payer and vault are two accounts, and custody and the
/// caller's token-holding account are two.
pub proof fn conversion_charges_and_grants_by_table(
    ledger: LedgerView,
    accounts: Convert,
    authorized: bool,
    exchange_option: u8,
    is_holder: bool,
)
    ensures
        match convert_outcome(ledger, accounts, authorized, exchange_option, is_holder) {
            Ok((after, receipt)) => {
                let cost = exchange_cost(exchange_option, is_holder);
                let grant = exchange_grant(exchange_option);
                &&& receipt.payment.amount == cost
                &&& receipt.grant.amount == grant
                &&& accounts.claimer != accounts.vault.key ==> {
                    &&& after.lamports_of(accounts.claimer) == ledger.lamports_of(accounts.claimer)
                        - cost
                    &&& after.lamports_of(accounts.vault.key) == ledger.lamports_of(accounts.vault.key)
                        + cost
                }
                &&& accounts.vault_pool_skt_account != accounts.claimer_skt_account ==> {
                    &&& after.balance_of(accounts.vault_pool_skt_account) == ledger.balance_of(
                        accounts.vault_pool_skt_account,
                    ) - grant
                    &&& after.balance_of(accounts.claimer_skt_account) == ledger.balance_of(
                        accounts.claimer_skt_account,
                    ) + grant
                }
            },
            Err(_) => true,
        },
{
}

/// A conversion that the balances cover succeeds, for every option and for holders and others
/// alike: the caller then holds exactly the tabled price less and the vault as much more, and
/// custody holds exactly the tabled grant less and the caller's token-holding account as much
/// more.
///
/// This is stated of conversions that lack nothing but, possibly, the balance: the vault's
/// pool signs and is the authority of the custody account, payer and vault are two accounts,
/// custody and the caller's token-holding account are two of one token type, and the receiving
/// ends have room for the amounts.
pub proof fn covered_conversion_succeeds(
    ledger: LedgerView,
    accounts: Convert,
    authorized: bool,
    exchange_option: u8,
    is_holder: bool,
)
    requires
        authorized,
        ledger.lamports_of(accounts.claimer) >= exchange_cost(exchange_option, is_holder),
        ledger.balance_of(accounts.vault_pool_skt_account) >= exchange_grant(exchange_option),
        ledger.admits_lamports(
            accounts.claimer,
            accounts.vault.key,
            exchange_cost(exchange_option, is_holder),
        ),
        ledger.tokens.contains_key(accounts.vault_pool_skt_account),
        ledger.tokens[accounts.vault_pool_skt_account].authority == accounts.vault_pool,
        accounts.vault_pool_skt_account != accounts.claimer_skt_account,
        ledger.tokens.contains_key(accounts.claimer_skt_account) ==> {
            &&& ledger.tokens[accounts.claimer_skt_account].mint
                == ledger.tokens[accounts.vault_pool_skt_account].mint
            &&& ledger.tokens[accounts.claimer_skt_account].amount + exchange_grant(exchange_option)
                <= u64::MAX
        },
        !ledger.tokens.contains_key(accounts.claimer_skt_account)
            ==> ledger.tokens[accounts.vault_pool_skt_account].mint == accounts.skt_mint,
    ensures
        convert_outcome(ledger, accounts, authorized, exchange_option, is_holder) matches Ok(
            (after, receipt),
        ) && {
            let cost = exchange_cost(exchange_option, is_holder);
            let grant = exchange_grant(exchange_option);
            &&& receipt.payment.amount == cost
            &&& receipt.grant.amount == grant
            &&& after.lamports_of(accounts.claimer) == ledger.lamports_of(accounts.claimer) - cost
            &&& after.lamports_of(accounts.vault.key) == ledger.lamports_of(accounts.vault.key)
                + cost
            &&& after.balance_of(accounts.vault_pool_skt_account) == ledger.balance_of(
                accounts.vault_pool_skt_account,
            ) - grant
            &&& after.balance_of(accounts.claimer_skt_account) == ledger.balance_of(
                accounts.claimer_skt_account,
            ) + grant
        },
{
}

/// A claim that the custody balance covers is paid, whoever claims: custody then holds exactly
/// `amount` less and the caller's token-holding account as much more, and the event names the
/// caller and the amount.
///
/// This is stated of claims that lack nothing but, possibly, the balance: the vault's pool
/// signs, and the transfer goes between two different accounts of one token type of which the
/// second has room for the amount.
pub proof fn covered_claim_is_paid(ledger: LedgerView, accounts: ClaimSkt, authorized: bool, amount: u64)
    requires
        authorized,
        ledger.balance_of(accounts.vault_pool_skt_account) >= amount,
        ledger.admits_transfer(
            accounts.vault_pool_skt_account,
            accounts.claimer_skt_account,
            accounts.vault_pool,
            amount,
        ),
    ensures
        claim_outcome(ledger, accounts, authorized, amount) matches Ok((after, receipt)) && {
            &&& receipt.event == (crate::state::ClaimSKTEvent { claimer: accounts.claimer, amount })
            &&& receipt.transfer.amount == amount
            &&& after.balance_of(accounts.vault_pool_skt_account) == ledger.balance_of(
                accounts.vault_pool_skt_account,
            ) - amount
            &&& after.balance_of(accounts.claimer_skt_account) == ledger.balance_of(
                accounts.claimer_skt_account,
            ) + amount
            &&& after.lamports == ledger.lamports
        },
{
}

/// A claim turns nobody away and knows of no raffle: it is refused only with `ErrorCustom` or
/// `NotEnoughTokens`, never as the act of a stranger, and never because a raffle is finalized.
pub proof fn claim_is_refused_for_signature_or_balance_only(
    ledger: LedgerView,
    accounts: ClaimSkt,
    authorized: bool,
    amount: u64,
)
    ensures
        claim_outcome(ledger, accounts, authorized, amount) matches Err(e) ==> e
            == ErrorCode::ErrorCustom || e == ErrorCode::NotEnoughTokens,
{
}

/// The rate table: the standard price, the price for holders and the grant of each option.
/// The grant is the same for holders and others.
pub proof fn rate_table(exchange_option: u8)
    ensures
        exchange_option == 0 ==> exchange_cost(exchange_option, false) == 500_000_000
            && exchange_cost(exchange_option, true) == 400_000_000 && exchange_grant(exchange_option)
            == 70_000_000_000,
        exchange_option == 1 ==> exchange_cost(exchange_option, false) == 700_000_000
            && exchange_cost(exchange_option, true) == 600_000_000 && exchange_grant(exchange_option)
            == 140_000_000_000,
        exchange_option == 2 ==> exchange_cost(exchange_option, false) == 1_200_000_000
            && exchange_cost(exchange_option, true) == 1_000_000_000 && exchange_grant(
            exchange_option,
        ) == 320_000_000_000,
        exchange_option >= 3 ==> exchange_cost(exchange_option, false) == 1_800_000_000
            && exchange_cost(exchange_option, true) == 1_600_000_000 && exchange_grant(
            exchange_option,
        ) == 500_000_000_000,
{
}

/// One attempt to buy tickets.
pub struct Sale {
    pub buyer: AccountId,
    pub amount: u32,
    pub price: u64,
    pub token: AccountId,
}

/// The raffle after a sequence of attempts to buy: each one that is accepted is applied, each
/// one that is refused leaves the raffle as it was.
pub open spec fn after_sales(raffle: RaffleView, sales: Seq<Sale>) -> RaffleView
    decreases sales.len(),
{
    if sales.len() == 0 {
        raffle
    } else {
        let before = after_sales(raffle, sales.drop_last());
        let sale = sales.last();
        match before.sell(sale.buyer, sale.amount, sale.price, sale.token) {
            Ok((after, _)) => after,
            Err(_) => before,
        }
    }
}

/// Whatever is sold, in whatever order, a raffle never counts more tickets as sold than it
/// has.
pub proof fn sales_stay_within_inventory(raffle: RaffleView, sales: Seq<Sale>)
    requires
        raffle.within_inventory(),
    ensures
        after_sales(raffle, sales).within_inventory(),
        after_sales(raffle, sales).total_tickets == raffle.total_tickets,
        after_sales(raffle, sales).sold_tickets >= raffle.sold_tickets,
    decreases sales.len(),
{
    if sales.len() > 0 {
        sales_stay_within_inventory(raffle, sales.drop_last());
    }
}

/// Every attempt to buy from a finalized raffle is refused with `RaffleFinalized`.
pub proof fn finalized_raffle_refuses_sale(raffle: RaffleView, sale: Sale)
    requires
        raffle.is_finalized,
    ensures
        raffle.sell(sale.buyer, sale.amount, sale.price, sale.token) == Err::<
            (RaffleView, crate::state::BuyEvent),
            ErrorCode,
        >(ErrorCode::RaffleFinalized),
{
}

/// A finalized raffle stays as it is, and stays finalized, whatever sales are attempted.
pub proof fn finalized_raffle_is_closed_for_good(raffle: RaffleView, sales: Seq<Sale>)
    requires
        raffle.is_finalized,
    ensures
        after_sales(raffle, sales) == raffle,
    decreases sales.len(),
{
    if sales.len() > 0 {
        finalized_raffle_is_closed_for_good(raffle, sales.drop_last());
    }
}

/// Sales never reopen a raffle: once finalized within a sequence of attempts, it is finalized
/// at its end.
pub proof fn sales_keep_finalization(raffle: RaffleView, sales: Seq<Sale>)
    ensures
        after_sales(raffle, sales).is_finalized == raffle.is_finalized,
    decreases sales.len(),
{
    if sales.len() > 0 {
        sales_keep_finalization(raffle, sales.drop_last());
    }
}

} // verus!
