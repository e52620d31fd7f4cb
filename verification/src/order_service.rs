//! Orders: placing, lookup, listing by user and cancellation.
use vstd::prelude::*;
use crate::amount::Amount;
use crate::error::{clock_unavailable, id_unavailable, outcome, AppError, AppResult, ErrorView};
use crate::model::{Order, OrderSide, OrderStatus, OrderType};
use crate::system::{is_hyphenated_id, new_id, now_timestamp};
use crate::table::{lemma_filter_take_step, Record, Table};

verus! {

/// What a client asks for when it places an order.
pub struct CreateOrderRequest {
    pub user_id: String,
    pub symbol: String,
    pub order_type: OrderType,
    pub side: OrderSide,
    pub price: Amount,
    pub quantity: Amount,
}

/// The order that `req` opens under the identifier `id` at the time `at`:
/// new, created and last updated at `at`.
pub open spec fn opened_order(req: CreateOrderRequest, id: String, at: i64) -> Order {
    Order {
        id,
        user_id: req.user_id,
        symbol: req.symbol,
        order_type: req.order_type,
        side: req.side,
        price: req.price,
        quantity: req.quantity,
        status: OrderStatus::New,
        created_at: at,
        updated_at: at,
    }
}

/// The order that `req` opens under the identifier `id` at the time `at`.
pub fn order_from_request_at(req: CreateOrderRequest, id: String, at: i64) -> (o: Order)
    ensures
        o == opened_order(req, id, at),
{
    Order {
        id,
        user_id: req.user_id,
        symbol: req.symbol,
        order_type: req.order_type,
        side: req.side,
        price: req.price,
        quantity: req.quantity,
        status: OrderStatus::New,
        created_at: at,
        updated_at: at,
    }
}

/// The order that `req` opens now, under a fresh random identifier; the
/// internal error [`clock_unavailable`] or [`id_unavailable`] when the time
/// or the identifier cannot be had.
pub fn order_from_request(req: CreateOrderRequest) -> (r: AppResult<Order>)
    ensures
        match r {
            Ok(o) => o == opened_order(req, o.id, o.created_at) && is_hyphenated_id(o.id@),
            Err(e) => e@ == clock_unavailable() || e@ == id_unavailable(),
        },
{
    let at = match now_timestamp() {
        Some(t) => t,
        None => {
            return Err(AppError::no_clock());
        },
    };
    let id = match new_id() {
        Some(id) => id,
        None => {
            return Err(AppError::no_id());
        },
    };
    Ok(order_from_request_at(req, id, at))
}

/// Storing `order`: the answer, and the orders afterwards.  An order
/// already stored under the same identifier is replaced.
pub open spec fn create_order_step(orders: Map<Seq<char>, Order>, order: Order) -> (
    Result<Order, ErrorView>,
    Map<Seq<char>, Order>,
) {
    (Ok(order), orders.insert(order.id@, order))
}

/// Looking up the order `id`.
pub open spec fn get_order_step(orders: Map<Seq<char>, Order>, id: Seq<char>) -> Result<
    Order,
    ErrorView,
> {
    if orders.contains_key(id) {
        Ok(orders[id])
    } else {
        Err(ErrorView::NotFound("Order not found: "@ + id))
    }
}

/// The test that an order belongs to the user `u`.
pub open spec fn placed_by(u: Seq<char>) -> spec_fn(Order) -> bool {
    |o: Order| o.user_id@ == u
}

/// The orders of `listing` that belong to `user_id`, or all of them when no
/// user is named.
pub open spec fn orders_of(listing: Seq<Order>, user_id: Option<Seq<char>>) -> Seq<Order> {
    match user_id {
        Some(u) => listing.filter(placed_by(u)),
        None => listing,
    }
}

/// The order `o` canceled at the time `at`.
pub open spec fn canceled(o: Order, at: i64) -> Order {
    Order { status: OrderStatus::Canceled, updated_at: at, ..o }
}

/// Why the order `id` cannot be canceled, if it cannot: it does not exist,
/// or it is filled or canceled already.
pub open spec fn cancel_refusal(orders: Map<Seq<char>, Order>, id: Seq<char>) -> Option<ErrorView> {
    if !orders.contains_key(id) {
        Some(ErrorView::NotFound("Order not found: "@ + id))
    } else if orders[id].status == OrderStatus::Filled {
        Some(ErrorView::BadRequest("Cannot cancel an already filled order"@))
    } else if orders[id].status == OrderStatus::Canceled {
        Some(ErrorView::BadRequest("Order is already canceled"@))
    } else {
        None
    }
}

/// Canceling the order `id` at the time `at`: the answer, and the orders
/// afterwards.
pub open spec fn cancel_order_step(orders: Map<Seq<char>, Order>, id: Seq<char>, at: i64) -> (
    Result<Order, ErrorView>,
    Map<Seq<char>, Order>,
) {
    match cancel_refusal(orders, id) {
        Some(e) => (Err(e), orders),
        None => {
            let c = canceled(orders[id], at);
            (Ok(c), orders.insert(id, c))
        },
    }
}

/// The orders, each under its identifier.
pub struct OrderService {
    orders: Table<Order>,
}

impl View for OrderService {
    type V = Map<Seq<char>, Order>;

    closed spec fn view(&self) -> Map<Seq<char>, Order> {
        self.orders@
    }
}

impl OrderService {
    /// The orders in the order `get_orders` lists them.
    pub closed spec fn listing(&self) -> Seq<Order> {
        self.orders.entries()
    }

    /// The service's invariant: each order sits under its own identifier.
    pub closed spec fn wf(&self) -> bool {
        self.orders.wf()
    }

    /// The listing holds every order once, each under its identifier.
    pub proof fn lemma_listing_is_view(&self)
        requires
            self.wf(),
        ensures
            forall|i: int|
                0 <= i < self.listing().len() ==> #[trigger] self@.contains_key(
                    self.listing()[i].id@,
                ) && self@[self.listing()[i].id@] == self.listing()[i],
            forall|i: int, j: int|
                0 <= i < self.listing().len() && 0 <= j < self.listing().len() && i != j
                    ==> self.listing()[i].id@ != self.listing()[j].id@,
            forall|k: Seq<char>|
                #[trigger] self@.contains_key(k) ==> exists|i: int|
                    0 <= i < self.listing().len() && #[trigger] self.listing()[i].id@ == k,
            self.listing().len() == self@.len(),
    {
        self.orders.lemma_entries_are_view();
        let s = self.listing();
        assert forall|i: int| 0 <= i < s.len() implies #[trigger] self@.contains_key(s[i].id@)
            && self@[s[i].id@] == s[i] by {
            assert(s[i].key() == s[i].id@);
        }
        assert forall|k: Seq<char>| #[trigger] self@.contains_key(k) implies exists|i: int|
            0 <= i < s.len() && #[trigger] s[i].id@ == k by {
            let i = choose|i: int| 0 <= i < s.len() && #[trigger] s[i].key() == k;
            assert(s[i].id@ == k);
        }
    }

    /// A service with no orders.
    pub fn new() -> (s: Self)
        ensures
            s.wf(),
            s@ == Map::<Seq<char>, Order>::empty(),
    {
        OrderService { orders: Table::new() }
    }

    /// Stores `order` and answers with it.
    pub fn create_order(&mut self, order: Order) -> (r: AppResult<Order>)
        requires
            old(self).wf(),
        ensures
            final(self).wf(),
            (outcome(r), final(self)@) == create_order_step(old(self)@, order),
    {
        let copy = order.duplicate();
        self.orders.insert(order);
        Ok(copy)
    }

    /// The order `id`.
    pub fn get_order(&self, id: &str) -> (r: AppResult<Order>)
        requires
            self.wf(),
        ensures
            outcome(r) == get_order_step(self@, id@),
    {
        let key = String::from_str(id);
        match self.orders.get(&key) {
            Some(o) => Ok(o.duplicate()),
            None => Err(AppError::not_found("Order not found: ", id)),
        }
    }

    /// The orders of the user `user_id`, or all orders when it is `None`,
    /// in the service's order.
    pub fn get_orders(&self, user_id: Option<&String>) -> (r: AppResult<Vec<Order>>)
        requires
            self.wf(),
        ensures
            match r {
                Ok(v) => v@ == orders_of(
                    self.listing(),
                    match user_id {
                        Some(u) => Some(u@),
                        None => None,
                    },
                ),
                Err(_) => false,
            },
    {
        match user_id {
            None => Ok(self.orders.copy_all()),
            Some(u) => {
                let rows = self.orders.rows();
                let ghost pred = placed_by(u@);
                let mut out: Vec<Order> = Vec::new();
                let mut i: usize = 0;
                while i < rows.len()
                    invariant
                        i <= rows@.len(),
                        rows@ == self.listing(),
                        pred == placed_by(u@),
                        out@ == rows@.take(i as int).filter(pred),
                    decreases rows@.len() - i,
                {
                    proof {
                        lemma_filter_take_step(rows@, i as int, pred);
                    }
                    if rows[i].user_id.eq(u) {
                        out.push(rows[i].duplicate());
                    }
                    i = i + 1;
                }
                assert(rows@.take(i as int) =~= rows@);
                Ok(out)
            },
        }
    }

    /// Cancels the order `id` at the time `at`.
    pub fn cancel_order_at(&mut self, id: &str, at: i64) -> (r: AppResult<Order>)
        requires
            old(self).wf(),
        ensures
            final(self).wf(),
            (outcome(r), final(self)@) == cancel_order_step(old(self)@, id@, at),
    {
        if let Some(e) = self.check_cancel(id) {
            return Err(e);
        }
        let key = String::from_str(id);
        let found = match self.orders.get(&key) {
            Some(o) => o.duplicate(),
            None => {
                return Err(AppError::not_found("Order not found: ", id));
            },
        };
        let mut c = found;
        c.status = OrderStatus::Canceled;
        c.updated_at = at;
        let answer = c.duplicate();
        self.orders.insert(c);
        Ok(answer)
    }

    /// The refusal, if any, of canceling the order `id`.
    fn check_cancel(&self, id: &str) -> (r: Option<AppError>)
        requires
            self.wf(),
        ensures
            match r {
                Some(e) => cancel_refusal(self@, id@) == Some(e@),
                None => cancel_refusal(self@, id@) is None,
            },
    {
        let key = String::from_str(id);
        match self.orders.get(&key) {
            Some(o) => {
                if o.status == OrderStatus::Filled {
                    Some(AppError::bad_request("Cannot cancel an already filled order"))
                } else if o.status == OrderStatus::Canceled {
                    Some(AppError::bad_request("Order is already canceled"))
                } else {
                    None
                }
            },
            None => Some(AppError::not_found("Order not found: ", id)),
        }
    }

    /// Cancels the order `id` now.  The clock is read only once the order
    /// is known to be cancelable; when it cannot be read the answer is the
    /// internal error [`clock_unavailable`] and nothing changes.
    pub fn cancel_order(&mut self, id: &str) -> (r: AppResult<Order>)
        requires
            old(self).wf(),
        ensures
            final(self).wf(),
            match r {
                Ok(_) => exists|at: i64|
                    #[trigger] cancel_order_step(old(self)@, id@, at) == (outcome(r), final(self)@),
                Err(e) => final(self)@ == old(self)@ && (cancel_refusal(old(self)@, id@) == Some(e@)
                    || (cancel_refusal(old(self)@, id@) is None && e@ == clock_unavailable())),
            },
    {
        if let Some(e) = self.check_cancel(id) {
            return Err(e);
        }
        match now_timestamp() {
            Some(at) => self.cancel_order_at(id, at),
            None => Err(AppError::no_clock()),
        }
    }
}

/// An order that was just stored can be read back under its identifier.
pub proof fn law_created_order_is_found(orders: Map<Seq<char>, Order>, order: Order)
    ensures
        get_order_step(create_order_step(orders, order).1, order.id@) == Ok::<Order, ErrorView>(
            order,
        ),
{
}

/// A cancellation that succeeds answers with the order as it was, with the
/// status `Canceled` and the time of the cancellation; that is what is
/// stored afterwards, and every other order stays as it was.
pub proof fn law_cancellation_touches_one_order(
    orders: Map<Seq<char>, Order>,
    id: Seq<char>,
    at: i64,
)
    requires
        cancel_order_step(orders, id, at).0 is Ok,
    ensures
        ({
            let (r, after) = cancel_order_step(orders, id, at);
            &&& r == Ok::<Order, ErrorView>(canceled(orders[id], at))
            &&& get_order_step(after, id) == r
            &&& after.dom() == orders.dom()
            &&& forall|k: Seq<char>| #[trigger] after.contains_key(k) && k != id ==> after[k] == orders[k]
        }),
{
    let after = cancel_order_step(orders, id, at).1;
    assert(after.dom() =~= orders.dom());
}

/// An order that was canceled cannot be canceled again, at any later time.
pub proof fn law_cancellation_is_final(
    orders: Map<Seq<char>, Order>,
    id: Seq<char>,
    at: i64,
    later: i64,
)
    requires
        cancel_order_step(orders, id, at).0 is Ok,
    ensures
        ({
            let after = cancel_order_step(orders, id, at).1;
            cancel_order_step(after, id, later) == (
                Err::<Order, ErrorView>(ErrorView::BadRequest("Order is already canceled"@)),
                after,
            )
        }),
{
}

/// A refused cancellation leaves the orders as they were.
pub proof fn law_refused_cancellation_changes_nothing(
    orders: Map<Seq<char>, Order>,
    id: Seq<char>,
    at: i64,
)
    requires
        cancel_order_step(orders, id, at).0 is Err,
    ensures
        cancel_order_step(orders, id, at).1 == orders,
{
}

/// A filled order is never canceled.
pub proof fn law_filled_order_stays_filled(
    orders: Map<Seq<char>, Order>,
    id: Seq<char>,
    at: i64,
)
    requires
        orders.contains_key(id),
        orders[id].status == OrderStatus::Filled,
    ensures
        cancel_order_step(orders, id, at).0 is Err,
        cancel_order_step(orders, id, at).1[id].status == OrderStatus::Filled,
{
}

/// Listing the orders of a user gives exactly the listed orders that belong
/// to that user, each as often as in the full listing, never more orders
/// than the full listing.
pub proof fn law_orders_of_user(listing: Seq<Order>, u: Seq<char>)
    ensures
        forall|i: int|
            0 <= i < orders_of(listing, Some(u)).len() ==> (#[trigger] orders_of(
                listing,
                Some(u),
            )[i]).user_id@ == u && listing.contains(orders_of(listing, Some(u))[i]),
        forall|i: int|
            0 <= i < listing.len() && (#[trigger] listing[i]).user_id@ == u ==> orders_of(
                listing,
                Some(u),
            ).contains(listing[i]),
        orders_of(listing, Some(u)).len() <= orders_of(listing, None).len(),
{
    broadcast use vstd::seq_lib::group_filter_ensures;

    let r = orders_of(listing, Some(u));
    assert forall|i: int| 0 <= i < r.len() implies (#[trigger] r[i]).user_id@ == u
        && listing.contains(r[i]) by {
        assert(placed_by(u)(r[i]));
        assert(r.contains(r[i]));
        listing.lemma_filter_contains_rev(placed_by(u), r[i]);
    }
    assert forall|i: int| 0 <= i < listing.len() && (#[trigger] listing[i]).user_id@ == u implies r.contains(
        listing[i],
    ) by {
        assert(placed_by(u)(listing[i]));
    }
}

/// An opened order carries the request's user, symbol, type, side, price
/// and quantity unchanged, under the given identifier, with the status
/// `New` and both times equal to the given time.
pub proof fn law_opened_order_keeps_request(req: CreateOrderRequest, id: String, at: i64)
    ensures
        opened_order(req, id, at).id == id,
        opened_order(req, id, at).user_id == req.user_id,
        opened_order(req, id, at).symbol == req.symbol,
        opened_order(req, id, at).order_type == req.order_type,
        opened_order(req, id, at).side == req.side,
        opened_order(req, id, at).price == req.price,
        opened_order(req, id, at).quantity == req.quantity,
        opened_order(req, id, at).status == OrderStatus::New,
        opened_order(req, id, at).created_at == at,
        opened_order(req, id, at).updated_at == at,
{
}

/// A cancellation succeeds exactly for a stored order that is new or
/// partially filled.  The answer is that order with the status `Canceled`
/// and the update time `at`, every other field as it was, and it is what is
/// stored under `id` afterwards.
pub proof fn law_cancellation_changes_status_and_time_only(
    orders: Map<Seq<char>, Order>,
    id: Seq<char>,
    at: i64,
)
    ensures
        cancel_order_step(orders, id, at).0 is Ok <==> orders.contains_key(id) && (
        orders[id].status == OrderStatus::New || orders[id].status == OrderStatus::PartiallyFilled),
        cancel_order_step(orders, id, at).0 matches Ok(o) ==> {
            &&& o.status == OrderStatus::Canceled
            &&& o.updated_at == at
            &&& o.id == orders[id].id
            &&& o.user_id == orders[id].user_id
            &&& o.symbol == orders[id].symbol
            &&& o.order_type == orders[id].order_type
            &&& o.side == orders[id].side
            &&& o.price == orders[id].price
            &&& o.quantity == orders[id].quantity
            &&& o.created_at == orders[id].created_at
            &&& cancel_order_step(orders, id, at).1.contains_key(id)
            &&& cancel_order_step(orders, id, at).1[id] == o
        },
{
}

/// Storing an order puts exactly that order under its identifier and
/// leaves every other order as it was.
pub proof fn law_storing_touches_one_order(orders: Map<Seq<char>, Order>, order: Order)
    ensures
        create_order_step(orders, order).0 == Ok::<Order, ErrorView>(order),
        create_order_step(orders, order).1.dom() == orders.dom().insert(order.id@),
        create_order_step(orders, order).1[order.id@] == order,
        forall|k: Seq<char>|
            orders.contains_key(k) && k != order.id@ ==> #[trigger] create_order_step(
                orders,
                order,
            ).1[k] == orders[k],
{
}

/// Listing with no user named gives the full listing.
pub proof fn law_orders_of_nobody_is_all(listing: Seq<Order>)
    ensures
        orders_of(listing, None) == listing,
{
}

/// Looking an order up finds exactly the stored orders, as stored; a
/// missing one is answered `NotFound` with "Order not found: " and the
/// identifier.
pub proof fn law_order_lookup(orders: Map<Seq<char>, Order>, id: Seq<char>)
    ensures
        orders.contains_key(id) ==> get_order_step(orders, id) == Ok::<Order, ErrorView>(
            orders[id],
        ),
        !orders.contains_key(id) ==> get_order_step(orders, id) == Err::<Order, ErrorView>(
            ErrorView::NotFound("Order not found: "@ + id),
        ),
{
}

/// The refusals of a cancellation, in the order they are tested: a missing
/// order, then a filled one, then one canceled already, each with its
/// message; a refused cancellation stores nothing.
pub proof fn law_cancellation_refusal_messages(
    orders: Map<Seq<char>, Order>,
    id: Seq<char>,
    at: i64,
)
    ensures
        !orders.contains_key(id) ==> cancel_order_step(orders, id, at) == (
            Err::<Order, ErrorView>(ErrorView::NotFound("Order not found: "@ + id)),
            orders,
        ),
        orders.contains_key(id) && orders[id].status == OrderStatus::Filled ==> cancel_order_step(
            orders,
            id,
            at,
        ) == (
            Err::<Order, ErrorView>(
                ErrorView::BadRequest("Cannot cancel an already filled order"@),
            ),
            orders,
        ),
        orders.contains_key(id) && orders[id].status == OrderStatus::Canceled ==> cancel_order_step(
            orders,
            id,
            at,
        ) == (
            Err::<Order, ErrorView>(ErrorView::BadRequest("Order is already canceled"@)),
            orders,
        ),
{
}

} // verus!
