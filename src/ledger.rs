use vstd::prelude::*;
use vstd::hash_map::HashMapWithView;
use vstd::hash_map::StringHashMap;

use crate::model::MarketView;
use crate::model::TokenView;

verus! {

broadcast use vstd::std_specs::hash::group_hash_axioms;

/// A sellable unit of time: who sells it, at what hourly rate, how many hours
/// are left, and what it is.
#[derive(Debug)]
pub struct TimeToken {
    pub seller: String,
    pub hourly_rate: i128,
    pub hours_available: u32,
    pub description: String,
}

impl View for TimeToken {
    type V = TokenView;

    open spec fn view(&self) -> TokenView {
        TokenView {
            seller: self.seller@,
            hourly_rate: self.hourly_rate,
            hours_available: self.hours_available,
            description: self.description@,
        }
    }
}

impl TimeToken {
    /// A copy of this record.
    pub fn duplicate(&self) -> (r: TimeToken)
        ensures
            r@ == self@,
    {
        TimeToken {
            seller: self.seller.clone(),
            hourly_rate: self.hourly_rate,
            hours_available: self.hours_available,
            description: self.description.clone(),
        }
    }
}

/// The value transfer that a purchase asks for: `amount` units move from
/// `from` (the buyer) to `to` (the seller).
#[derive(Debug)]
pub struct Payment {
    pub from: String,
    pub to: String,
    pub amount: i128,
}

/// Why a purchase cannot go ahead.
#[derive(Debug, Clone, Copy, PartialEq, Eq, Structural)]
pub enum LedgerError {
    /// No token is stored under the id: never minted, or deleted.
    NotFound,
    /// The token's balance is smaller than the hours asked for.
    InsufficientHours,
    /// The price of the hours does not fit in an `i128`.
    AmountOverflow,
}

/// The marketplace ledger: the id counter, the token records, and the index
/// from each seller to the ids it has minted.
pub struct TimeMarketplace {
    token_counter: u64,
    tokens: HashMapWithView<u64, TimeToken>,
    seller_index: StringHashMap<Vec<u64>>,
}

impl View for TimeMarketplace {
    type V = MarketView;

    closed spec fn view(&self) -> MarketView {
        MarketView {
            token_counter: self.token_counter,
            tokens: self.tokens@.map_values(|t: TimeToken| t@),
            seller_index: self.seller_index@.map_values(|v: Vec<u64>| v@),
        }
    }
}

impl TimeMarketplace {
    /// A ledger that has minted nothing.
    pub fn new() -> (r: TimeMarketplace)
        ensures
            r@ == MarketView::empty(),
    {
        let r = TimeMarketplace {
            token_counter: 0,
            tokens: HashMapWithView::new(),
            seller_index: StringHashMap::new(),
        };
        assert(r@.tokens =~= Map::empty());
        assert(r@.seller_index =~= Map::empty());
        r
    }

    /// Sets the id counter to zero; records and the seller index stay.
    pub fn initialize(&mut self)
        ensures
            final(self)@ == (MarketView { token_counter: 0, ..old(self)@ }),
    {
        self.token_counter = 0;
    }

    /// Mints a token for `seller` and returns its id, one more than the last id
    /// given out. The record is stored under the new id and the id is appended
    /// to the seller's list.
    pub fn mint_time_token(
        &mut self,
        seller: String,
        hourly_rate: i128,
        hours_available: u32,
        description: String,
    ) -> (id: u64)
        requires
            old(self)@.token_counter < u64::MAX,
        ensures
            id == old(self)@.next_id(),
            final(self)@ == old(self)@.after_mint(seller@, hourly_rate, hours_available, description@),
    {
        let id = self.token_counter + 1;
        let ghost old_view = self@;
        let ghost after = old_view.after_mint(seller@, hourly_rate, hours_available, description@);
        let mut ids: Vec<u64> = match self.seller_index.get(seller.as_str()) {
            Some(v) => v.clone(),
            None => Vec::new(),
        };
        assert(ids@ == old_view.seller_tokens(seller@));
        ids.push(id);
        let token = TimeToken { seller: seller.clone(), hourly_rate, hours_available, description };
        self.tokens.insert(id, token);
        self.seller_index.insert(seller, ids);
        self.token_counter = id;
        assert(self@.tokens =~= after.tokens);
        assert(self@.seller_index =~= after.seller_index);
        id
    }

    /// The record stored under `token_id`, or `None` where that id was never
    /// minted or has been deleted.
    pub fn get_token(&self, token_id: u64) -> (r: Option<TimeToken>)
        ensures
            r is Some <==> self@.tokens.contains_key(token_id),
            r matches Some(t) ==> t@ == self@.tokens[token_id],
    {
        match self.tokens.get(&token_id) {
            Some(t) => Some(t.duplicate()),
            None => None,
        }
    }

    /// Checks a purchase of `hours` hours of token `token_id` by `buyer` and
    /// returns the payment it asks for, from the buyer to the seller, of the
    /// hourly rate times the hours. The ledger is not changed.
    pub fn plan_purchase(&self, token_id: u64, buyer: &String, hours: u32) -> (r: Result<
        Payment,
        LedgerError,
    >)
        ensures
            r == Err::<Payment, LedgerError>(LedgerError::NotFound) <==> !self@.tokens.contains_key(
                token_id,
            ),
            r == Err::<Payment, LedgerError>(LedgerError::InsufficientHours) <==> (
            self@.tokens.contains_key(token_id) && !self@.has_hours(token_id, hours)),
            r == Err::<Payment, LedgerError>(LedgerError::AmountOverflow) <==> (self@.has_hours(
                token_id,
                hours,
            ) && !self@.can_purchase(token_id, hours)),
            r is Ok <==> self@.can_purchase(token_id, hours),
            r matches Ok(p) ==> p.from@ == buyer@ && p.to@ == self@.tokens[token_id].seller
                && p.amount == self@.purchase_amount(token_id, hours),
    {
        match self.tokens.get(&token_id) {
            None => Err(LedgerError::NotFound),
            Some(t) => {
                if t.hours_available < hours {
                    Err(LedgerError::InsufficientHours)
                } else {
                    match t.hourly_rate.checked_mul(hours as i128) {
                        None => Err(LedgerError::AmountOverflow),
                        Some(amount) => Ok(
                            Payment { from: buyer.clone(), to: t.seller.clone(), amount },
                        ),
                    }
                }
            },
        }
    }

    /// Completes a purchase of `hours` hours of token `token_id` once the
    /// payment that `plan_purchase` asked for has been attempted. The balance
    /// drops by `hours` only where the purchase may go ahead and the transfer
    /// succeeded; otherwise nothing changes and the result is `false`.
    pub fn purchase_token(&mut self, token_id: u64, hours: u32, transfer_succeeded: bool) -> (r:
        bool)
        ensures
            r == (transfer_succeeded && old(self)@.can_purchase(token_id, hours)),
            r ==> final(self)@ == old(self)@.after_purchase(token_id, hours),
            !r ==> final(self)@ == old(self)@,
    {
        let ghost old_view = self@;
        if !transfer_succeeded {
            return false;
        }
        let mut token = match self.tokens.remove(&token_id) {
            Some(t) => t,
            None => return false,
        };
        let ok = token.hours_available >= hours && token.hourly_rate.checked_mul(
            hours as i128,
        ).is_some();
        if ok {
            token.hours_available = token.hours_available - hours;
        }
        self.tokens.insert(token_id, token);
        if ok {
            assert(self@.tokens =~= old_view.after_purchase(token_id, hours).tokens);
        } else {
            assert(self@.tokens =~= old_view.tokens);
        }
        ok
    }

    /// Sets the balance of token `token_id` to `new_hours` where the token
    /// exists and belongs to `seller`; otherwise nothing changes and the result
    /// is `false`.
    pub fn update_availability(&mut self, token_id: u64, seller: &String, new_hours: u32) -> (r:
        bool)
        ensures
            r == old(self)@.owned_by(token_id, seller@),
            r ==> final(self)@ == old(self)@.after_update(token_id, new_hours),
            !r ==> final(self)@ == old(self)@,
    {
        let ghost old_view = self@;
        let mut token = match self.tokens.remove(&token_id) {
            Some(t) => t,
            None => return false,
        };
        let ok = token.seller == *seller;
        if ok {
            token.hours_available = new_hours;
        }
        self.tokens.insert(token_id, token);
        if ok {
            assert(self@.tokens =~= old_view.after_update(token_id, new_hours).tokens);
        } else {
            assert(self@.tokens =~= old_view.tokens);
        }
        ok
    }

    /// Removes token `token_id` where it exists and belongs to `seller`;
    /// otherwise nothing changes and the result is `false`. The id stays in the
    /// seller's list.
    pub fn delete_token(&mut self, token_id: u64, seller: &String) -> (r: bool)
        ensures
            r == old(self)@.owned_by(token_id, seller@),
            r ==> final(self)@ == old(self)@.after_delete(token_id),
            !r ==> final(self)@ == old(self)@,
    {
        let ghost old_view = self@;
        let owned = match self.tokens.get(&token_id) {
            Some(t) => t.seller == *seller,
            None => false,
        };
        if owned {
            self.tokens.remove(&token_id);
            assert(self@.tokens =~= old_view.after_delete(token_id).tokens);
        }
        owned
    }

    /// The ids that `seller` has minted, in mint order, deleted ones included;
    /// empty for a seller that never minted.
    pub fn get_seller_tokens(&self, seller: &String) -> (r: Vec<u64>)
        ensures
            r@ == self@.seller_tokens(seller@),
    {
        match self.seller_index.get(seller.as_str()) {
            Some(v) => v.clone(),
            None => Vec::new(),
        }
    }

    /// The number of tokens minted so far, which is also the last id given out.
    pub fn get_token_count(&self) -> (r: u64)
        ensures
            r == self@.token_counter,
    {
        self.token_counter
    }
}

} // verus!
