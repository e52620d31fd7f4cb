//! Trades: recording, lookup and listing by order.
use vstd::prelude::*;
use crate::amount::Amount;
use crate::error::{clock_unavailable, id_unavailable, outcome, AppError, AppResult, ErrorView};
use crate::model::Trade;
use crate::system::{is_hyphenated_id, new_id, now_timestamp};
use crate::table::{lemma_filter_take_step, Record, Table};

verus! {

/// The trade recorded for `order_id` under the identifier `id` at the time
/// `at`.
pub open spec fn trade_made(
    order_id: String,
    price: Amount,
    quantity: Amount,
    commission: Amount,
    id: String,
    at: i64,
) -> Trade {
    Trade { id, order_id, price, quantity, commission, created_at: at }
}

/// Looking up the trade `id`.
pub open spec fn get_trade_step(trades: Map<Seq<char>, Trade>, id: Seq<char>) -> Result<
    Trade,
    ErrorView,
> {
    if trades.contains_key(id) {
        Ok(trades[id])
    } else {
        Err(ErrorView::NotFound("Trade not found: "@ + id))
    }
}

/// The test that a trade was made for the order `o`.
pub open spec fn made_for(o: Seq<char>) -> spec_fn(Trade) -> bool {
    |t: Trade| t.order_id@ == o
}

/// The trades of `listing` that a query selects: those of the order when
/// one is named; none when only a user is named; all of them otherwise.
pub open spec fn trades_of(
    listing: Seq<Trade>,
    order_id: Option<Seq<char>>,
    user_id: Option<Seq<char>>,
) -> Seq<Trade> {
    match (order_id, user_id) {
        (Some(o), _) => listing.filter(made_for(o)),
        (None, Some(_)) => Seq::empty(),
        (None, None) => listing,
    }
}

/// The view of an optional string.
pub open spec fn opt_view(s: Option<String>) -> Option<Seq<char>> {
    match s {
        Some(v) => Some(v@),
        None => None,
    }
}

/// The trades, each under its identifier.
pub struct ExchangeService {
    trades: Table<Trade>,
}

impl View for ExchangeService {
    type V = Map<Seq<char>, Trade>;

    closed spec fn view(&self) -> Map<Seq<char>, Trade> {
        self.trades@
    }
}

impl ExchangeService {
    /// The trades in the order `get_trades` lists them.
    pub closed spec fn listing(&self) -> Seq<Trade> {
        self.trades.entries()
    }

    /// The service's invariant: each trade sits under its own identifier.
    pub closed spec fn wf(&self) -> bool {
        self.trades.wf()
    }

    /// The listing holds every trade once, each under its identifier.
    pub proof fn lemma_listing_is_view(&self)
        requires
            self.wf(),
        ensures
            forall|i: int|
                0 <= i < self.listing().len() ==> #[trigger] self@.contains_key(
                    self.listing()[i].id@,
                ) && self@[self.listing()[i].id@] == self.listing()[i],
            forall|k: Seq<char>|
                #[trigger] self@.contains_key(k) ==> exists|i: int|
                    0 <= i < self.listing().len() && #[trigger] self.listing()[i].id@ == k,
            forall|i: int, j: int|
                0 <= i < self.listing().len() && 0 <= j < self.listing().len() && i != j
                    ==> self.listing()[i].id@ != self.listing()[j].id@,
            self.listing().len() == self@.len(),
    {
        self.trades.lemma_entries_are_view();
        let s = self.listing();
        assert forall|i: int| 0 <= i < s.len() implies #[trigger] self@.contains_key(s[i].id@)
            && self@[s[i].id@] == s[i] by {
            assert(s[i].key() == s[i].id@);
        }
        assert forall|k: Seq<char>| #[trigger] self@.contains_key(k) implies exists|i: int|
            0 <= i < s.len() && #[trigger] s[i].id@ == k by {
            let i = choose|i: int| 0 <= i < s.len() && #[trigger] s[i].key() == k;
            assert(s[i].id@ == k);
        }
    }

    /// A service with no trades.
    pub fn new() -> (s: Self)
        ensures
            s.wf(),
            s@ == Map::<Seq<char>, Trade>::empty(),
    {
        ExchangeService { trades: Table::new() }
    }

    /// The trade `id`.
    pub fn get_trade(&self, id: &str) -> (r: AppResult<Trade>)
        requires
            self.wf(),
        ensures
            outcome(r) == get_trade_step(self@, id@),
    {
        let key = String::from_str(id);
        match self.trades.get(&key) {
            Some(t) => Ok(t.duplicate()),
            None => Err(AppError::not_found("Trade not found: ", id)),
        }
    }

    /// The trades a query selects (see [`trades_of`]), in the service's
    /// order.  Trades are not linked to users, so a query by user alone
    /// selects none.
    pub fn get_trades(&self, order_id: Option<String>, user_id: Option<String>) -> (r: AppResult<
        Vec<Trade>,
    >)
        requires
            self.wf(),
        ensures
            match r {
                Ok(v) => v@ == trades_of(self.listing(), opt_view(order_id), opt_view(user_id)),
                Err(_) => false,
            },
    {
        match order_id {
            Some(o) => {
                let rows = self.trades.rows();
                let ghost pred = made_for(o@);
                let mut out: Vec<Trade> = Vec::new();
                let mut i: usize = 0;
                while i < rows.len()
                    invariant
                        i <= rows@.len(),
                        rows@ == self.listing(),
                        pred == made_for(o@),
                        out@ == rows@.take(i as int).filter(pred),
                    decreases rows@.len() - i,
                {
                    proof {
                        lemma_filter_take_step(rows@, i as int, pred);
                    }
                    if rows[i].order_id.eq(&o) {
                        out.push(rows[i].duplicate());
                    }
                    i = i + 1;
                }
                assert(rows@.take(i as int) =~= rows@);
                Ok(out)
            },
            None => match user_id {
                Some(_) => Ok(Vec::new()),
                None => Ok(self.trades.copy_all()),
            },
        }
    }

    /// Records a trade for `order_id` under the identifier `id` at the time
    /// `at`, replacing a trade already stored under `id`.
    pub fn create_trade_at(
        &mut self,
        order_id: String,
        price: Amount,
        quantity: Amount,
        commission: Amount,
        id: String,
        at: i64,
    ) -> (r: AppResult<Trade>)
        requires
            old(self).wf(),
        ensures
            final(self).wf(),
            r matches Ok(t) && t == trade_made(order_id, price, quantity, commission, id, at),
            final(self)@ == old(self)@.insert(id@, trade_made(order_id, price, quantity, commission, id, at)),
    {
        let trade = Trade { id, order_id, price, quantity, commission, created_at: at };
        let answer = trade.duplicate();
        self.trades.insert(trade);
        Ok(answer)
    }

    /// Records a trade for `order_id` now, under a fresh random identifier.
    /// The commission is the one the caller computed for this price and
    /// quantity.  When the identifier or the time cannot be had the answer
    /// is the internal error [`id_unavailable`] or [`clock_unavailable`],
    /// and nothing is recorded.
    pub fn create_trade(
        &mut self,
        order_id: String,
        price: Amount,
        quantity: Amount,
        commission: Amount,
    ) -> (r: AppResult<Trade>)
        requires
            old(self).wf(),
        ensures
            final(self).wf(),
            match r {
                Ok(t) => t == trade_made(order_id, price, quantity, commission, t.id, t.created_at)
                    && is_hyphenated_id(t.id@) && final(self)@ == old(self)@.insert(t.id@, t),
                Err(e) => final(self)@ == old(self)@ && (e@ == id_unavailable() || e@
                    == clock_unavailable()),
            },
    {
        let id = match new_id() {
            Some(id) => id,
            None => {
                return Err(AppError::no_id());
            },
        };
        let at = match now_timestamp() {
            Some(t) => t,
            None => {
                return Err(AppError::no_clock());
            },
        };
        self.create_trade_at(order_id, price, quantity, commission, id, at)
    }
}

/// A trade that was just recorded can be read back under its identifier.
pub proof fn law_recorded_trade_is_found(trades: Map<Seq<char>, Trade>, t: Trade)
    ensures
        get_trade_step(trades.insert(t.id@, t), t.id@) == Ok::<Trade, ErrorView>(t),
{
}

/// A query by order gives exactly the listed trades of that order, whatever
/// user is named; a query by user alone gives none; an empty query gives
/// all trades.
pub proof fn law_trade_queries(listing: Seq<Trade>, o: Seq<char>, u: Option<Seq<char>>, v: Seq<char>)
    ensures
        forall|i: int|
            0 <= i < trades_of(listing, Some(o), u).len() ==> (#[trigger] trades_of(
                listing,
                Some(o),
                u,
            )[i]).order_id@ == o && listing.contains(trades_of(listing, Some(o), u)[i]),
        forall|i: int|
            0 <= i < listing.len() && (#[trigger] listing[i]).order_id@ == o ==> trades_of(
                listing,
                Some(o),
                u,
            ).contains(listing[i]),
        trades_of(listing, None, Some(v)).len() == 0,
        trades_of(listing, None, None) == listing,
{
    broadcast use vstd::seq_lib::group_filter_ensures;

    let r = trades_of(listing, Some(o), u);
    assert forall|i: int| 0 <= i < r.len() implies (#[trigger] r[i]).order_id@ == o
        && listing.contains(r[i]) by {
        assert(made_for(o)(r[i]));
        assert(r.contains(r[i]));
        listing.lemma_filter_contains_rev(made_for(o), r[i]);
    }
    assert forall|i: int| 0 <= i < listing.len() && (#[trigger] listing[i]).order_id@ == o implies r.contains(
        listing[i],
    ) by {
        assert(made_for(o)(listing[i]));
    }
}

/// A recorded trade carries the given order, price, quantity, commission,
/// identifier and time unchanged.
pub proof fn law_trade_keeps_its_fields(
    order_id: String,
    price: Amount,
    quantity: Amount,
    commission: Amount,
    id: String,
    at: i64,
)
    ensures
        trade_made(order_id, price, quantity, commission, id, at).id == id,
        trade_made(order_id, price, quantity, commission, id, at).order_id == order_id,
        trade_made(order_id, price, quantity, commission, id, at).price == price,
        trade_made(order_id, price, quantity, commission, id, at).quantity == quantity,
        trade_made(order_id, price, quantity, commission, id, at).commission == commission,
        trade_made(order_id, price, quantity, commission, id, at).created_at == at,
{
}

/// Looking a trade up finds exactly the stored trades, as stored; a missing
/// one is answered `NotFound` with "Trade not found: " and the identifier.
pub proof fn law_trade_lookup(trades: Map<Seq<char>, Trade>, id: Seq<char>)
    ensures
        trades.contains_key(id) ==> get_trade_step(trades, id) == Ok::<Trade, ErrorView>(
            trades[id],
        ),
        !trades.contains_key(id) ==> get_trade_step(trades, id) == Err::<Trade, ErrorView>(
            ErrorView::NotFound("Trade not found: "@ + id),
        ),
{
}

} // verus!
