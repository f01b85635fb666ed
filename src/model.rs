use vstd::prelude::*;

verus! {

/// The abstract content of one time token.
pub struct TokenView {
    pub seller: Seq<char>,
    pub hourly_rate: i128,
    pub hours_available: u32,
    pub description: Seq<char>,
}

/// The abstract state of the ledger.
pub struct MarketView {
    pub token_counter: u64,
    pub tokens: Map<u64, TokenView>,
    pub seller_index: Map<Seq<char>, Seq<u64>>,
}

impl MarketView {
    /// The state of a ledger that has never minted.
    pub open spec fn empty() -> MarketView {
        MarketView { token_counter: 0, tokens: Map::empty(), seller_index: Map::empty() }
    }

    /// The ids minted by `seller`, in mint order; empty for an unknown seller.
    pub open spec fn seller_tokens(self, seller: Seq<char>) -> Seq<u64> {
        if self.seller_index.contains_key(seller) {
            self.seller_index[seller]
        } else {
            Seq::empty()
        }
    }

    /// The id that the next mint assigns.
    pub open spec fn next_id(self) -> u64 {
        (self.token_counter + 1) as u64
    }

    /// The state after a mint: the counter steps by one, the new record is
    /// stored under the new id, and the id is appended to the seller's list.
    pub open spec fn after_mint(
        self,
        seller: Seq<char>,
        hourly_rate: i128,
        hours_available: u32,
        description: Seq<char>,
    ) -> MarketView {
        let id = self.next_id();
        MarketView {
            token_counter: id,
            tokens: self.tokens.insert(
                id,
                TokenView { seller, hourly_rate, hours_available, description },
            ),
            seller_index: self.seller_index.insert(seller, self.seller_tokens(seller).push(id)),
        }
    }

    /// The price of `hours` hours of token `id`, in the settlement asset's smallest unit.
    pub open spec fn purchase_amount(self, id: u64, hours: u32) -> int {
        self.tokens[id].hourly_rate * hours
    }

    /// Whether the balance of token `id` covers `hours` hours.
    pub open spec fn has_hours(self, id: u64, hours: u32) -> bool {
        self.tokens.contains_key(id) && hours <= self.tokens[id].hours_available
    }

    /// Whether a purchase of `hours` hours of token `id` may go ahead: the token
    /// exists, its balance covers the hours, and the price fits in an `i128`.
    pub open spec fn can_purchase(self, id: u64, hours: u32) -> bool {
        self.has_hours(id, hours) && i128::MIN <= self.purchase_amount(id, hours) <= i128::MAX
    }

    /// The state after a paid purchase: the balance of token `id` drops by `hours`.
    pub open spec fn after_purchase(self, id: u64, hours: u32) -> MarketView {
        let t = self.tokens[id];
        MarketView {
            tokens: self.tokens.insert(
                id,
                TokenView { hours_available: (t.hours_available - hours) as u32, ..t },
            ),
            ..self
        }
    }

    /// Whether token `id` exists and belongs to `seller`.
    pub open spec fn owned_by(self, id: u64, seller: Seq<char>) -> bool {
        self.tokens.contains_key(id) && self.tokens[id].seller == seller
    }

    /// The state after the owner sets the balance of token `id` to `new_hours`.
    pub open spec fn after_update(self, id: u64, new_hours: u32) -> MarketView {
        MarketView {
            tokens: self.tokens.insert(
                id,
                TokenView { hours_available: new_hours, ..self.tokens[id] },
            ),
            ..self
        }
    }

    /// The state after the owner deletes token `id`; the seller index keeps the id.
    pub open spec fn after_delete(self, id: u64) -> MarketView {
        MarketView { tokens: self.tokens.remove(id), ..self }
    }
}

} // verus!

verus! {

/// The arguments of one mint.
pub struct MintRequest {
    pub seller: Seq<char>,
    pub hourly_rate: i128,
    pub hours_available: u32,
    pub description: Seq<char>,
}

impl MarketView {
    /// The state after the mints of `reqs`, in order.
    pub open spec fn after_mints(self, reqs: Seq<MintRequest>) -> MarketView
        decreases reqs.len(),
    {
        if reqs.len() == 0 {
            self
        } else {
            let r = reqs.last();
            self.after_mints(reqs.drop_last()).after_mint(
                r.seller,
                r.hourly_rate,
                r.hours_available,
                r.description,
            )
        }
    }

    /// The ids that the mints of `reqs` return, in order.
    pub open spec fn minted_ids(self, reqs: Seq<MintRequest>) -> Seq<u64>
        decreases reqs.len(),
    {
        if reqs.len() == 0 {
            Seq::empty()
        } else {
            self.minted_ids(reqs.drop_last()).push(self.after_mints(reqs.drop_last()).next_id())
        }
    }
}

/// Ids are handed out in sequence: a run of mints returns the ids that follow
/// the counter one by one, and leaves the counter at the last of them.
pub proof fn lemma_mint_ids_sequential(s: MarketView, reqs: Seq<MintRequest>)
    requires
        s.token_counter + reqs.len() <= u64::MAX,
    ensures
        s.minted_ids(reqs).len() == reqs.len(),
        forall|i: int| 0 <= i < reqs.len() ==> s.minted_ids(reqs)[i] == s.token_counter + i + 1,
        s.after_mints(reqs).token_counter == s.token_counter + reqs.len(),
    decreases reqs.len(),
{
    if reqs.len() > 0 {
        lemma_mint_ids_sequential(s, reqs.drop_last());
    }
}

/// From a fresh ledger, N mints return exactly the ids 1 to N in call order,
/// and the token count is then N.
pub proof fn lemma_fresh_mint_ids(reqs: Seq<MintRequest>)
    requires
        reqs.len() <= u64::MAX,
    ensures
        MarketView::empty().minted_ids(reqs) == Seq::new(reqs.len(), |i: int| (i + 1) as u64),
        MarketView::empty().after_mints(reqs).token_counter == reqs.len(),
{
    lemma_mint_ids_sequential(MarketView::empty(), reqs);
    assert(MarketView::empty().minted_ids(reqs) =~= Seq::new(reqs.len(), |i: int| (i + 1) as u64));
}

/// Only the owner can change or delete a token: once `a` has minted a token,
/// another seller `b` does not own it, so update and delete by `b` fail and
/// leave the ledger as it was.
pub proof fn lemma_ownership_gating(
    s: MarketView,
    a: Seq<char>,
    b: Seq<char>,
    hourly_rate: i128,
    hours_available: u32,
    description: Seq<char>,
)
    requires
        s.token_counter < u64::MAX,
        a != b,
    ensures
        s.after_mint(a, hourly_rate, hours_available, description).owned_by(s.next_id(), a),
        !s.after_mint(a, hourly_rate, hours_available, description).owned_by(s.next_id(), b),
{
}

/// Deletion is final: after the owner deletes a token the id is absent, a
/// second delete or an update of it fails, and no later mint brings it back.
pub proof fn lemma_delete_terminal(
    s: MarketView,
    id: u64,
    seller: Seq<char>,
    next: MintRequest,
)
    requires
        s.owned_by(id, seller),
        1 <= id <= s.token_counter < u64::MAX,
    ensures
        !s.after_delete(id).tokens.contains_key(id),
        !s.after_delete(id).owned_by(id, seller),
        !s.after_delete(id).after_mint(
            next.seller,
            next.hourly_rate,
            next.hours_available,
            next.description,
        ).tokens.contains_key(id),
{
}

/// Two mints in a row are the two single mints, one after the other.
proof fn lemma_two_mints(s: MarketView, first: MintRequest, second: MintRequest)
    ensures
        s.after_mints(seq![first, second]) == s.after_mint(
            first.seller,
            first.hourly_rate,
            first.hours_available,
            first.description,
        ).after_mint(second.seller, second.hourly_rate, second.hours_available, second.description),
{
    let reqs = seq![first, second];
    assert(reqs.drop_last() =~= seq![first]);
    assert(seq![first].drop_last() =~= Seq::<MintRequest>::empty());
    assert(s.after_mints(Seq::<MintRequest>::empty()) == s);
    assert(s.after_mints(seq![first]) == s.after_mint(
        first.seller,
        first.hourly_rate,
        first.hours_available,
        first.description,
    ));
}

/// Minting twice as one seller appends both ids to that seller's list, in
/// mint order.
pub proof fn lemma_seller_index_accumulates(s: MarketView, seller: Seq<char>, first: MintRequest, second: MintRequest)
    requires
        s.token_counter + 2 <= u64::MAX,
        first.seller == seller,
        second.seller == seller,
    ensures
        s.after_mints(seq![first, second]).seller_tokens(seller) == s.seller_tokens(seller)
            + seq![s.next_id(), (s.token_counter + 2) as u64],
{
    let reqs = seq![first, second];
    lemma_two_mints(s, first, second);
    assert(s.after_mints(reqs).seller_tokens(seller) =~= s.seller_tokens(seller) + seq![
        s.next_id(),
        (s.token_counter + 2) as u64,
    ]);
}

/// On a fresh ledger, one mint by each of two different sellers gives each
/// seller a list holding its own id alone, the two lists share no id, and the
/// token count is two.
pub proof fn lemma_sellers_kept_apart(first: MintRequest, second: MintRequest)
    requires
        first.seller != second.seller,
    ensures
        MarketView::empty().after_mints(seq![first, second]).seller_tokens(first.seller) == seq![
            1u64,
        ],
        MarketView::empty().after_mints(seq![first, second]).seller_tokens(second.seller) == seq![
            2u64,
        ],
        forall|i: int, j: int|
            0 <= i < MarketView::empty().after_mints(seq![first, second]).seller_tokens(
                first.seller,
            ).len() && 0 <= j < MarketView::empty().after_mints(
                seq![first, second],
            ).seller_tokens(second.seller).len() ==> MarketView::empty().after_mints(
                seq![first, second],
            ).seller_tokens(first.seller)[i] != MarketView::empty().after_mints(
                seq![first, second],
            ).seller_tokens(second.seller)[j],
        MarketView::empty().after_mints(seq![first, second]).token_counter == 2,
{
    let reqs = seq![first, second];
    lemma_two_mints(MarketView::empty(), first, second);
    let t = MarketView::empty().after_mints(reqs);
    assert(t.seller_tokens(first.seller) =~= seq![1u64]);
    assert(t.seller_tokens(second.seller) =~= seq![2u64]);
}

} // verus!
