use vstd::prelude::*;
use crate::account::AccountId;
use crate::state::{BuyEvent, Buyer, ErrorCode, Raffle};

verus! {

/// A raffle as a mathematical value: its fields, with the buyers as a sequence.
pub struct RaffleView {
    pub pool_bump: u8,
    pub total_tickets: u32,
    pub sold_tickets: u32,
    pub price_per_ticket: u64,
    pub token_spl_address: AccountId,
    pub owner: AccountId,
    pub nft_mint_address: AccountId,
    pub store_buyers: bool,
    pub is_finalized: bool,
    pub buyers: Seq<Buyer>,
}

/// `key` has a record among the buyers.
pub open spec fn has_bought(buyers: Seq<Buyer>, key: AccountId) -> bool {
    exists|i: int| 0 <= i < buyers.len() && (#[trigger] buyers[i]).key == key
}

/// The place of the record of `key` among the buyers: the first, should there be several.
pub open spec fn buyer_index(buyers: Seq<Buyer>, key: AccountId) -> int {
    choose|i: int|
        0 <= i < buyers.len() && (#[trigger] buyers[i]).key == key && forall|j: int|
            0 <= j < i ==> (#[trigger] buyers[j]).key != key
}

/// The buyers once `key` has bought `amount` more tickets: its record counts them, and is
/// added at the end if there was none.
pub open spec fn record_purchase(buyers: Seq<Buyer>, key: AccountId, amount: u32) -> Seq<Buyer> {
    if has_bought(buyers, key) {
        let i = buyer_index(buyers, key);
        buyers.update(i, Buyer { key, tickets: (buyers[i].tickets + amount) as u32 })
    } else {
        buyers.push(Buyer { key, tickets: amount })
    }
}

impl RaffleView {
    /// No more tickets are sold than there are.
    pub open spec fn within_inventory(self) -> bool {
        self.sold_tickets <= self.total_tickets
    }

    /// The count of tickets of `buyer` would pass the largest number that a record holds.
    pub open spec fn record_overflows(self, buyer: AccountId, amount: u32) -> bool {
        &&& self.store_buyers
        &&& has_bought(self.buyers, buyer)
        &&& self.buyers[buyer_index(self.buyers, buyer)].tickets + amount > u32::MAX
    }

    /// The outcome of a sale of `amount` tickets to `buyer`, who offers `price` for each, in
    /// the token `token`: the raffle after it and the event that tells of it, or the refusal.
    ///
    /// A finalized raffle sells nothing. Token and price must be the raffle's, and the tickets
    /// must be left.
    pub open spec fn sell(self, buyer: AccountId, amount: u32, price: u64, token: AccountId) -> Result<
        (RaffleView, BuyEvent),
        ErrorCode,
    > {
        if self.is_finalized {
            Err(ErrorCode::RaffleFinalized)
        } else if token != self.token_spl_address {
            Err(ErrorCode::RaffleTokenSPLAddressMismatched)
        } else if price != self.price_per_ticket {
            Err(ErrorCode::RafflePriceMismatched)
        } else if self.sold_tickets + amount > self.total_tickets {
            Err(ErrorCode::NoTicketsLeft)
        } else if self.record_overflows(buyer, amount) {
            Err(ErrorCode::ErrorCustom)
        } else {
            let sold_tickets = (self.sold_tickets + amount) as u32;
            Ok(
                (
                    RaffleView {
                        sold_tickets,
                        buyers: if self.store_buyers {
                            record_purchase(self.buyers, buyer, amount)
                        } else {
                            self.buyers
                        },
                        ..self
                    },
                    BuyEvent {
                        buyer,
                        amount,
                        sold_tickets,
                        total_tickets: self.total_tickets,
                        remaining_tickets: (self.total_tickets - sold_tickets) as u32,
                    },
                ),
            )
        }
    }

    /// The outcome of closing the raffle for sales on behalf of `caller`, who must be its
    /// owner; a raffle is closed once.
    pub open spec fn finalize(self, caller: AccountId) -> Result<RaffleView, ErrorCode> {
        if caller != self.owner {
            Err(ErrorCode::NotAuthorizedAdmin)
        } else if self.is_finalized {
            Err(ErrorCode::RaffleFinalized)
        } else {
            Ok(RaffleView { is_finalized: true, ..self })
        }
    }
}

impl Clone for Raffle {
    fn clone(&self) -> (copy: Raffle)
        ensures
            copy@ == self@,
    {
        Raffle {
            pool_bump: self.pool_bump,
            total_tickets: self.total_tickets,
            sold_tickets: self.sold_tickets,
            price_per_ticket: self.price_per_ticket,
            token_spl_address: self.token_spl_address,
            owner: self.owner,
            nft_mint_address: self.nft_mint_address,
            store_buyers: self.store_buyers,
            is_finalized: self.is_finalized,
            buyers: self.buyers.clone(),
        }
    }
}

impl Raffle {
    pub open spec fn view(&self) -> RaffleView {
        RaffleView {
            pool_bump: self.pool_bump,
            total_tickets: self.total_tickets,
            sold_tickets: self.sold_tickets,
            price_per_ticket: self.price_per_ticket,
            token_spl_address: self.token_spl_address,
            owner: self.owner,
            nft_mint_address: self.nft_mint_address,
            store_buyers: self.store_buyers,
            is_finalized: self.is_finalized,
            buyers: self.buyers@,
        }
    }

    /// The place of the first record of `key` among the buyers.
    fn find_buyer(&self, key: &AccountId) -> (r: Option<usize>)
        ensures
            match r {
                Some(i) => {
                    &&& i < self.buyers@.len()
                    &&& has_bought(self.buyers@, *key)
                    &&& buyer_index(self.buyers@, *key) == i
                },
                None => !has_bought(self.buyers@, *key),
            },
    {
        let mut i: usize = 0;
        while i < self.buyers.len()
            invariant
                i <= self.buyers@.len(),
                forall|j: int| 0 <= j < i ==> (#[trigger] self.buyers@[j]).key != *key,
            decreases self.buyers@.len() - i,
        {
            if self.buyers[i].key == *key {
                proof {
                    let first = buyer_index(self.buyers@, *key);
                    assert(self.buyers@[i as int].key == *key);
                    if first < i {
                        assert(self.buyers@[first].key != *key);
                    }
                }
                return Some(i);
            }
            i += 1;
        }
        None
    }

    /// Sells `amount` tickets to `buyer`, who offers `price` for each, in the token `token`.
    ///
    /// On success the tickets are counted as sold, the buyer's record is kept if the raffle
    /// stores buyers, and the event to emit is returned. A refusal changes nothing.
    pub fn buy_tickets(&mut self, buyer: AccountId, amount: u32, price: u64, token: &AccountId) -> (r:
        Result<BuyEvent, ErrorCode>)
        ensures
            match old(self)@.sell(buyer, amount, price, *token) {
                Ok((after, event)) => r == Ok::<BuyEvent, ErrorCode>(event) && final(self)@ == after,
                Err(e) => r == Err::<BuyEvent, ErrorCode>(e) && final(self)@ == old(self)@,
            },
    {
        if self.is_finalized {
            return Err(ErrorCode::RaffleFinalized);
        }
        if *token != self.token_spl_address {
            return Err(ErrorCode::RaffleTokenSPLAddressMismatched);
        }
        if price != self.price_per_ticket {
            return Err(ErrorCode::RafflePriceMismatched);
        }
        if self.sold_tickets > self.total_tickets || amount > self.total_tickets - self.sold_tickets {
            return Err(ErrorCode::NoTicketsLeft);
        }
        if self.store_buyers {
            match self.find_buyer(&buyer) {
                Some(i) => {
                    let tickets = self.buyers[i].tickets;
                    if tickets > u32::MAX - amount {
                        return Err(ErrorCode::ErrorCustom);
                    }
                    self.buyers[i] = Buyer { key: buyer, tickets: tickets + amount };
                },
                None => {
                    self.buyers.push(Buyer { key: buyer, tickets: amount });
                },
            }
        }
        self.sold_tickets = self.sold_tickets + amount;
        Ok(
            BuyEvent {
                buyer,
                amount,
                sold_tickets: self.sold_tickets,
                total_tickets: self.total_tickets,
                remaining_tickets: self.total_tickets - self.sold_tickets,
            },
        )
    }

    /// Closes the raffle for sales, on behalf of `caller`. A refusal changes nothing.
    pub fn finalize(&mut self, caller: &AccountId) -> (r: Result<(), ErrorCode>)
        ensures
            match old(self)@.finalize(*caller) {
                Ok(after) => r is Ok && final(self)@ == after,
                Err(e) => r == Err::<(), ErrorCode>(e) && final(self)@ == old(self)@,
            },
    {
        if *caller != self.owner {
            return Err(ErrorCode::NotAuthorizedAdmin);
        }
        if self.is_finalized {
            return Err(ErrorCode::RaffleFinalized);
        }
        self.is_finalized = true;
        Ok(())
    }
}

} // verus!
