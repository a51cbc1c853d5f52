use vstd::prelude::*;
use crate::account::AccountId;
use crate::state::ErrorCode;

verus! {

/// The state of one token-holding account.
#[derive(Clone, Copy, Debug, PartialEq, Eq)]
pub struct TokenAccount {
    /// The token type that the account holds.
    pub mint: AccountId,
    /// The only account that may sign for transfers out of this one.
    pub authority: AccountId,
    /// The number of token units held.
    pub amount: u64,
}

struct Entry<V> {
    key: AccountId,
    value: V,
}

/// A finite map from account identifiers to values, kept as a list without repeated keys.
struct Table<V> {
    entries: Vec<Entry<V>>,
}

spec fn holds<V>(entries: Seq<Entry<V>>, key: AccountId) -> bool {
    exists|i: int| 0 <= i < entries.len() && (#[trigger] entries[i]).key == key
}

spec fn slot<V>(entries: Seq<Entry<V>>, key: AccountId) -> int {
    choose|i: int| 0 <= i < entries.len() && (#[trigger] entries[i]).key == key
}

spec fn distinct_keys<V>(entries: Seq<Entry<V>>) -> bool {
    forall|i: int, j: int|
        0 <= i < j < entries.len() ==> (#[trigger] entries[i]).key != (#[trigger] entries[j]).key
}

spec fn as_map<V>(entries: Seq<Entry<V>>) -> Map<AccountId, V> {
    Map::new(|k: AccountId| holds(entries, k), |k: AccountId| entries[slot(entries, k)].value)
}

proof fn lemma_slot<V>(entries: Seq<Entry<V>>, i: int)
    requires
        distinct_keys(entries),
        0 <= i < entries.len(),
    ensures
        holds(entries, entries[i].key),
        slot(entries, entries[i].key) == i,
        as_map(entries).contains_key(entries[i].key),
        as_map(entries)[entries[i].key] == entries[i].value,
{
    let k = entries[i].key;
    let s = slot(entries, k);
    assert(0 <= s < entries.len() && entries[s].key == k);
    if s < i {
        assert(entries[s].key != entries[i].key);
    } else if i < s {
        assert(entries[i].key != entries[s].key);
    }
}

proof fn lemma_replace<V>(entries: Seq<Entry<V>>, i: int, value: V)
    requires
        distinct_keys(entries),
        0 <= i < entries.len(),
    ensures
        distinct_keys(entries.update(i, Entry { key: entries[i].key, value })),
        as_map(entries.update(i, Entry { key: entries[i].key, value })) == as_map(entries).insert(
            entries[i].key,
            value,
        ),
{
    let key = entries[i].key;
    let after = entries.update(i, Entry { key, value });
    assert forall|a: int, b: int| 0 <= a < b < after.len() implies (#[trigger] after[a]).key != (
    #[trigger] after[b]).key by {
        assert(after[a].key == entries[a].key);
        assert(after[b].key == entries[b].key);
    }
    assert forall|k: AccountId| holds(after, k) == holds(entries, k) by {
        if holds(entries, k) {
            let s = slot(entries, k);
            assert(after[s].key == k);
        }
        if holds(after, k) {
            let s = slot(after, k);
            assert(entries[s].key == k);
        }
    }
    assert forall|k: AccountId| holds(after, k) implies #[trigger] as_map(after)[k] == as_map(
        entries,
    ).insert(key, value)[k] by {
        let s = slot(after, k);
        lemma_slot(after, s);
        assert(entries[s].key == k);
        lemma_slot(entries, s);
    }
    lemma_slot(entries, i);
    assert(as_map(after) =~= as_map(entries).insert(key, value));
}

proof fn lemma_append<V>(entries: Seq<Entry<V>>, key: AccountId, value: V)
    requires
        distinct_keys(entries),
        !holds(entries, key),
    ensures
        distinct_keys(entries.push(Entry { key, value })),
        as_map(entries.push(Entry { key, value })) == as_map(entries).insert(key, value),
{
    let after = entries.push(Entry { key, value });
    assert forall|a: int, b: int| 0 <= a < b < after.len() implies (#[trigger] after[a]).key != (
    #[trigger] after[b]).key by {
        assert(after[a] == entries[a]);
        if b < entries.len() {
            assert(after[b] == entries[b]);
        }
    }
    assert forall|k: AccountId| holds(after, k) == (holds(entries, k) || k == key) by {
        if holds(entries, k) {
            let s = slot(entries, k);
            assert(after[s].key == k);
        }
        if k == key {
            assert(after[entries.len() as int].key == k);
        }
        if holds(after, k) {
            let s = slot(after, k);
            if s < entries.len() {
                assert(entries[s].key == k);
            }
        }
    }
    assert forall|k: AccountId| holds(after, k) implies #[trigger] as_map(after)[k] == as_map(
        entries,
    ).insert(key, value)[k] by {
        let s = slot(after, k);
        lemma_slot(after, s);
        if s < entries.len() {
            assert(entries[s].key == k);
            lemma_slot(entries, s);
        }
    }
    assert(as_map(after) =~= as_map(entries).insert(key, value));
}

impl<V> Table<V> {
    #[verifier::type_invariant]
    spec fn well_formed(self) -> bool {
        distinct_keys(self.entries@)
    }
}

impl<V: Copy> Table<V> {
    closed spec fn view(&self) -> Map<AccountId, V> {
        as_map(self.entries@)
    }

    fn new() -> (table: Self)
        ensures
            table@ == Map::<AccountId, V>::empty(),
    {
        let table = Table { entries: Vec::new() };
        assert(table@ =~= Map::<AccountId, V>::empty());
        table
    }

    fn find(&self, key: &AccountId) -> (r: Option<usize>)
        ensures
            match r {
                Some(i) => i < self.entries@.len() && self.entries@[i as int].key == *key,
                None => !holds(self.entries@, *key),
            },
    {
        let mut i: usize = 0;
        while i < self.entries.len()
            invariant
                i <= self.entries@.len(),
                forall|j: int| 0 <= j < i ==> (#[trigger] self.entries@[j]).key != *key,
            decreases self.entries@.len() - i,
        {
            if self.entries[i].key == *key {
                return Some(i);
            }
            i += 1;
        }
        None
    }

    fn get(&self, key: &AccountId) -> (r: Option<V>)
        ensures
            r == (if self@.contains_key(*key) {
                Some(self@[*key])
            } else {
                None
            }),
    {
        proof {
            use_type_invariant(self);
        }
        match self.find(key) {
            Some(i) => {
                proof {
                    lemma_slot(self.entries@, i as int);
                }
                Some(self.entries[i].value)
            },
            None => None,
        }
    }

    fn put(self, key: AccountId, value: V) -> (table: Self)
        ensures
            table@ == self@.insert(key, value),
    {
        proof {
            use_type_invariant(&self);
        }
        let found = self.find(&key);
        let mut entries = self.entries;
        match found {
            Some(i) => {
                proof {
                    lemma_replace(entries@, i as int, value);
                }
                entries[i] = Entry { key, value };
            },
            None => {
                proof {
                    lemma_append(entries@, key, value);
                }
                entries.push(Entry { key, value });
            },
        }
        Table { entries }
    }

    fn take(&mut self) -> (table: Self)
        ensures
            table@ == old(self)@,
    {
        let mut table = Table::new();
        core::mem::swap(self, &mut table);
        table
    }

    fn snapshot(&self) -> (copy: Self)
        ensures
            copy@ == self@,
    {
        proof {
            use_type_invariant(self);
        }
        let mut entries: Vec<Entry<V>> = Vec::new();
        let mut i: usize = 0;
        while i < self.entries.len()
            invariant
                i <= self.entries@.len(),
                entries@ == self.entries@.subrange(0, i as int),
            decreases self.entries@.len() - i,
        {
            entries.push(Entry { key: self.entries[i].key, value: self.entries[i].value });
            assert(entries@ =~= self.entries@.subrange(0, i + 1));
            i += 1;
        }
        assert(entries@ =~= self.entries@);
        Table { entries }
    }
}

/// What a ledger holds, as mathematical maps: the token-holding accounts with their state, and
/// the native-currency balance of each account that has one.
#[verifier::ext_equal]
pub struct LedgerView {
    pub tokens: Map<AccountId, TokenAccount>,
    pub lamports: Map<AccountId, u64>,
}

impl LedgerView {
    /// The ledger on which no account exists.
    pub open spec fn empty() -> LedgerView {
        LedgerView { tokens: Map::empty(), lamports: Map::empty() }
    }

    /// The token units that `account` holds; none where it is no token-holding account.
    pub open spec fn balance_of(self, account: AccountId) -> u64 {
        if self.tokens.contains_key(account) {
            self.tokens[account].amount
        } else {
            0
        }
    }

    /// The native-currency balance of `account`, in base units.
    pub open spec fn lamports_of(self, account: AccountId) -> u64 {
        if self.lamports.contains_key(account) {
            self.lamports[account]
        } else {
            0
        }
    }

    /// Opens `account` as an empty token-holding account of type `mint`, for which `authority`
    /// signs. Fails with `ErrorCustom` where `account` is a token-holding account already.
    pub open spec fn create_account(
        self,
        account: AccountId,
        mint: AccountId,
        authority: AccountId,
    ) -> Result<LedgerView, ErrorCode> {
        if self.tokens.contains_key(account) {
            Err(ErrorCode::ErrorCustom)
        } else {
            Ok(
                LedgerView {
                    tokens: self.tokens.insert(account, TokenAccount { mint, authority, amount: 0 }),
                    lamports: self.lamports,
                },
            )
        }
    }

    /// Moves `amount` token units from `from` to `to`, signed for by `signer`.
    ///
    /// The conditions are tested in this order, and the first that fails decides the outcome:
    /// both are token-holding accounts (`ErrorCustom`); `from` holds the amount
    /// (`NotEnoughTokens`); both hold one token type (`ErrorCustom`); `signer` is the authority
    /// of `from` (`ErrorCustom`). A transfer from an account to itself then changes nothing.
    /// Any other must leave `to` with a balance that fits into 64 bits (`ErrorCustom`).
    pub open spec fn transfer(
        self,
        from: AccountId,
        to: AccountId,
        signer: AccountId,
        amount: u64,
    ) -> Result<LedgerView, ErrorCode> {
        if !self.tokens.contains_key(from) || !self.tokens.contains_key(to) {
            Err(ErrorCode::ErrorCustom)
        } else if self.tokens[from].amount < amount {
            Err(ErrorCode::NotEnoughTokens)
        } else if self.tokens[from].mint != self.tokens[to].mint {
            Err(ErrorCode::ErrorCustom)
        } else if self.tokens[from].authority != signer {
            Err(ErrorCode::ErrorCustom)
        } else if from == to {
            Ok(self)
        } else if self.tokens[to].amount + amount > u64::MAX {
            Err(ErrorCode::ErrorCustom)
        } else {
            Ok(
                LedgerView {
                    tokens: self.tokens.insert(
                        from,
                        TokenAccount {
                            amount: (self.tokens[from].amount - amount) as u64,
                            ..self.tokens[from]
                        },
                    ).insert(
                        to,
                        TokenAccount {
                            amount: (self.tokens[to].amount + amount) as u64,
                            ..self.tokens[to]
                        },
                    ),
                    lamports: self.lamports,
                },
            )
        }
    }

    /// A transfer of `amount` token units from `from` to `to` lacks nothing but, possibly, the
    /// balance: the two are different token-holding accounts of one token type, `signer` is
    /// the authority of `from`, and `to` has room for the amount.
    pub open spec fn admits_transfer(self, from: AccountId, to: AccountId, signer: AccountId, amount: u64) -> bool {
        &&& self.tokens.contains_key(from)
        &&& self.tokens.contains_key(to)
        &&& from != to
        &&& self.tokens[from].mint == self.tokens[to].mint
        &&& self.tokens[from].authority == signer
        &&& self.tokens[to].amount + amount <= u64::MAX
    }

    /// A transfer of `amount` base units of the native currency from `from` to `to` lacks
    /// nothing but, possibly, the balance: the two are different accounts, and `to` has room
    /// for the amount.
    pub open spec fn admits_lamports(self, from: AccountId, to: AccountId, amount: u64) -> bool {
        &&& from != to
        &&& self.lamports_of(to) + amount <= u64::MAX
    }

    /// Moves `amount` base units of the native currency from `from` to `to`.
    ///
    /// `from` must hold the amount (`NotEnoughTokens`). A transfer from an account to itself
    /// then changes nothing. Any other must leave `to` with a balance that fits into 64 bits
    /// (`ErrorCustom`). An account without a recorded balance holds nothing.
    pub open spec fn transfer_lamports(self, from: AccountId, to: AccountId, amount: u64) -> Result<
        LedgerView,
        ErrorCode,
    > {
        if self.lamports_of(from) < amount {
            Err(ErrorCode::NotEnoughTokens)
        } else if from == to {
            Ok(self)
        } else if self.lamports_of(to) + amount > u64::MAX {
            Err(ErrorCode::ErrorCustom)
        } else {
            Ok(
                LedgerView {
                    tokens: self.tokens,
                    lamports: self.lamports.insert(
                        from,
                        (self.lamports_of(from) - amount) as u64,
                    ).insert(to, (self.lamports_of(to) + amount) as u64),
                },
            )
        }
    }
}

/// The accounts that the operations work on: the token-holding accounts and the
/// native-currency balances, each found by its account identifier.
pub struct Ledger {
    tokens: Table<TokenAccount>,
    lamports: Table<u64>,
}

impl Ledger {
    pub closed spec fn view(&self) -> LedgerView {
        LedgerView { tokens: self.tokens@, lamports: self.lamports@ }
    }

    /// A ledger without accounts.
    pub fn new() -> (ledger: Ledger)
        ensures
            ledger@ == LedgerView::empty(),
    {
        Ledger { tokens: Table::new(), lamports: Table::new() }
    }

    /// A second ledger that holds what this one holds.
    pub fn snapshot(&self) -> (copy: Ledger)
        ensures
            copy@ == self@,
    {
        Ledger { tokens: self.tokens.snapshot(), lamports: self.lamports.snapshot() }
    }

    /// Records `account` as the state of the token-holding account `key`.
    pub fn set_token_account(&mut self, key: AccountId, account: TokenAccount)
        ensures
            final(self)@ == (LedgerView {
                tokens: old(self)@.tokens.insert(key, account),
                lamports: old(self)@.lamports,
            }),
    {
        let tokens = self.tokens.take();
        self.tokens = tokens.put(key, account);
    }

    /// Records `lamports` as the native-currency balance of `key`.
    pub fn set_lamports(&mut self, key: AccountId, lamports: u64)
        ensures
            final(self)@ == (LedgerView {
                tokens: old(self)@.tokens,
                lamports: old(self)@.lamports.insert(key, lamports),
            }),
    {
        let balances = self.lamports.take();
        self.lamports = balances.put(key, lamports);
    }

    /// The state of the token-holding account `key`, if it is one.
    pub fn token_account(&self, key: &AccountId) -> (account: Option<TokenAccount>)
        ensures
            account == (if self@.tokens.contains_key(*key) {
                Some(self@.tokens[*key])
            } else {
                None
            }),
    {
        self.tokens.get(key)
    }

    /// The token units that `key` holds.
    pub fn balance_of(&self, key: &AccountId) -> (amount: u64)
        ensures
            amount == self@.balance_of(*key),
    {
        match self.tokens.get(key) {
            Some(account) => account.amount,
            None => 0,
        }
    }

    /// The native-currency balance of `key`.
    pub fn lamports_of(&self, key: &AccountId) -> (lamports: u64)
        ensures
            lamports == self@.lamports_of(*key),
    {
        match self.lamports.get(key) {
            Some(lamports) => lamports,
            None => 0,
        }
    }

    /// Opens `account` as an empty token-holding account, or fails and changes nothing.
    pub fn create_account(&mut self, account: AccountId, mint: AccountId, authority: AccountId) -> (r:
        Result<(), ErrorCode>)
        ensures
            match old(self)@.create_account(account, mint, authority) {
                Ok(after) => r is Ok && final(self)@ == after,
                Err(e) => r == Err::<(), ErrorCode>(e) && final(self)@ == old(self)@,
            },
    {
        if self.tokens.get(&account).is_some() {
            return Err(ErrorCode::ErrorCustom);
        }
        self.set_token_account(account, TokenAccount { mint, authority, amount: 0 });
        Ok(())
    }

    /// Moves token units between two accounts, or fails and changes nothing.
    pub fn transfer(&mut self, from: &AccountId, to: &AccountId, signer: &AccountId, amount: u64) -> (r:
        Result<(), ErrorCode>)
        ensures
            match old(self)@.transfer(*from, *to, *signer, amount) {
                Ok(after) => r is Ok && final(self)@ == after,
                Err(e) => r == Err::<(), ErrorCode>(e) && final(self)@ == old(self)@,
            },
    {
        let source = match self.tokens.get(from) {
            Some(account) => account,
            None => { return Err(ErrorCode::ErrorCustom); },
        };
        let target = match self.tokens.get(to) {
            Some(account) => account,
            None => { return Err(ErrorCode::ErrorCustom); },
        };
        if source.amount < amount {
            return Err(ErrorCode::NotEnoughTokens);
        }
        if source.mint != target.mint {
            return Err(ErrorCode::ErrorCustom);
        }
        if source.authority != *signer {
            return Err(ErrorCode::ErrorCustom);
        }
        if *from == *to {
            return Ok(());
        }
        if target.amount > u64::MAX - amount {
            return Err(ErrorCode::ErrorCustom);
        }
        self.set_token_account(
            *from,
            TokenAccount { mint: source.mint, authority: source.authority, amount: source.amount - amount },
        );
        self.set_token_account(
            *to,
            TokenAccount { mint: target.mint, authority: target.authority, amount: target.amount + amount },
        );
        Ok(())
    }

    /// Moves native currency between two accounts, or fails and changes nothing.
    pub fn transfer_lamports(&mut self, from: &AccountId, to: &AccountId, amount: u64) -> (r: Result<
        (),
        ErrorCode,
    >)
        ensures
            match old(self)@.transfer_lamports(*from, *to, amount) {
                Ok(after) => r is Ok && final(self)@ == after,
                Err(e) => r == Err::<(), ErrorCode>(e) && final(self)@ == old(self)@,
            },
    {
        let source = self.lamports_of(from);
        let target = self.lamports_of(to);
        if source < amount {
            return Err(ErrorCode::NotEnoughTokens);
        }
        if *from == *to {
            return Ok(());
        }
        if target > u64::MAX - amount {
            return Err(ErrorCode::ErrorCustom);
        }
        self.set_lamports(*from, source - amount);
        self.set_lamports(*to, target + amount);
        Ok(())
    }
}

} // verus!
