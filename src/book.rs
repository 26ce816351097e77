use vstd::prelude::*;

use crate::error::OrderStoreError;
use crate::order::{Item, Order, OrderView, random_id, with_items};

verus! {

/// Whether no two orders of `s` share an id.
pub open spec fn ids_unique(s: Seq<OrderView>) -> bool {
    forall|i: int, j: int| 0 <= i < s.len() && 0 <= j < s.len() && i != j ==> s[i].id != s[j].id
}

/// Whether some order of `s` has the id `id`.
pub open spec fn has_id(s: Seq<OrderView>, id: u128) -> bool {
    exists|i: int| 0 <= i < s.len() && s[i].id == id
}

/// The order of `s` with the id `id`, if any.
pub open spec fn lookup(s: Seq<OrderView>, id: u128) -> Option<OrderView> {
    if has_id(s, id) {
        Some(s[choose|i: int| 0 <= i < s.len() && s[i].id == id])
    } else {
        None
    }
}

/// `s` with the items of the order with id `id` replaced by `items`.
pub open spec fn set_items(s: Seq<OrderView>, id: u128, items: Seq<Item>) -> Seq<OrderView> {
    s.map_values(|o: OrderView| if o.id == id { with_items(o, items) } else { o })
}

/// The orders of `s` that `user_id` owns, in the order of `s`.
pub open spec fn owned_by(s: Seq<OrderView>, user_id: u128) -> Seq<OrderView> {
    s.filter(|o: OrderView| o.user_id == user_id)
}

/// The views of a sequence of orders.
pub open spec fn views(orders: Seq<Order>) -> Seq<OrderView> {
    orders.map_values(|o: Order| o@)
}

/// In a sequence with unique ids, the order at a position is the one found
/// under its id.
pub proof fn lemma_lookup_at(s: Seq<OrderView>, i: int)
    requires
        ids_unique(s),
        0 <= i < s.len(),
    ensures
        lookup(s, s[i].id) == Some(s[i]),
{
    assert(has_id(s, s[i].id));
}

/// An order found under `id` has that id.
pub proof fn lemma_lookup_found(s: Seq<OrderView>, id: u128)
    ensures
        lookup(s, id) matches Some(o) ==> o.id == id,
{
}

/// Every order that `owned_by` selects belongs to the user.
pub proof fn lemma_owned_by_owner(s: Seq<OrderView>, user_id: u128)
    ensures
        forall|i: int|
            0 <= i < owned_by(s, user_id).len() ==> (#[trigger] owned_by(s, user_id)[i]).user_id
                == user_id,
{
    assert forall|i: int| 0 <= i < owned_by(s, user_id).len() implies (#[trigger] owned_by(
        s,
        user_id,
    )[i]).user_id == user_id by {
        s.lemma_filter_pred(|o: OrderView| o.user_id == user_id, i);
    }
}

/// How many times drawing a fresh id is tried before creation gives up.
pub const FRESH_ID_ATTEMPTS: u32 = 4;

/// All orders of a store, in order of creation, with unique ids.
pub struct OrderBook {
    orders: Vec<Order>,
}

impl View for OrderBook {
    type V = Seq<OrderView>;

    closed spec fn view(&self) -> Seq<OrderView> {
        views(self.orders@)
    }
}

impl OrderBook {
    /// The book's invariant: no two orders share an id.
    pub open spec fn wf(&self) -> bool {
        ids_unique(self@)
    }

    /// An empty book.
    pub fn new() -> (r: OrderBook)
        ensures
            r.wf(),
            r@ == Seq::<OrderView>::empty(),
    {
        let r = OrderBook { orders: Vec::new() };
        assert(r@ =~= Seq::<OrderView>::empty());
        r
    }

    /// The number of orders in the book.
    pub fn len(&self) -> (r: usize)
        ensures
            r == self@.len(),
    {
        self.orders.len()
    }

    /// The position of the order with id `id`, if there is one.
    fn position_of(&self, id: u128) -> (r: Option<usize>)
        ensures
            match r {
                Some(i) => i < self@.len() && self@[i as int].id == id,
                None => !has_id(self@, id),
            },
    {
        let mut i: usize = 0;
        while i < self.orders.len()
            invariant
                i <= self.orders.len(),
                forall|k: int| 0 <= k < i ==> self@[k].id != id,
            decreases self.orders.len() - i,
        {
            if self.orders[i].id == id {
                return Some(i);
            }
            i += 1;
        }
        None
    }

    /// Whether an order with id `id` is in the book.
    pub fn contains_order(&self, id: u128) -> (r: bool)
        ensures
            r == has_id(self@, id),
    {
        self.position_of(id).is_some()
    }

    /// Stores a new empty order for `user_id` under `id`, unless that id is
    /// taken, in which case the store is reported unavailable and nothing changes.
    pub fn create_order_with_id(&mut self, user_id: u128, id: u128) -> (r: Result<
        Order,
        OrderStoreError,
    >)
        requires
            old(self).wf(),
        ensures
            final(self).wf(),
            !has_id(old(self)@, id) ==> (r matches Ok(o) && o@ == (OrderView {
                id,
                user_id,
                items: Seq::empty(),
            }) && final(self)@ == old(self)@.push(o@)),
            has_id(old(self)@, id) ==> r == Err::<Order, OrderStoreError>(
                OrderStoreError::StoreUnavailable,
            ) && final(self)@ == old(self)@,
    {
        if self.contains_order(id) {
            return Err(OrderStoreError::StoreUnavailable);
        }
        let order = Order::with_id(id, user_id);
        let copy = order.snapshot();
        self.orders.push(order);
        assert(self@ =~= old(self)@.push(copy@));
        Ok(copy)
    }

    /// Stores a new empty order for `user_id` under a freshly drawn random
    /// id. Gives up, unchanged, with `StoreUnavailable` only if every drawn id
    /// was already taken, which cannot happen in an empty book.
    pub fn create_order(&mut self, user_id: u128) -> (r: Result<Order, OrderStoreError>)
        requires
            old(self).wf(),
        ensures
            final(self).wf(),
            old(self)@.len() == 0 ==> r is Ok,
            match r {
                Ok(o) => o@.user_id == user_id && o@.items.len() == 0 && !has_id(old(self)@, o@.id)
                    && final(self)@ == old(self)@.push(o@),
                Err(e) => e == OrderStoreError::StoreUnavailable && final(self)@ == old(self)@,
            },
    {
        let mut attempt: u32 = 0;
        while attempt < FRESH_ID_ATTEMPTS
            invariant
                self.wf(),
                self@ == old(self)@,
                self@.len() == 0 ==> attempt == 0,
            decreases FRESH_ID_ATTEMPTS - attempt,
        {
            let id = random_id();
            if !self.contains_order(id) {
                return self.create_order_with_id(user_id, id);
            }
            attempt += 1;
        }
        Err(OrderStoreError::StoreUnavailable)
    }

    /// A copy of the order with id `order_id`.
    pub fn get_order(&self, order_id: u128) -> (r: Result<Order, OrderStoreError>)
        requires
            self.wf(),
        ensures
            match lookup(self@, order_id) {
                Some(o) => (r matches Ok(found) && found@ == o),
                None => r == Err::<Order, OrderStoreError>(OrderStoreError::OrderNotFound(order_id)),
            },
    {
        match self.position_of(order_id) {
            Some(i) => {
                proof {
                    lemma_lookup_at(self@, i as int);
                }
                Ok(self.orders[i].snapshot())
            },
            None => Err(OrderStoreError::OrderNotFound(order_id)),
        }
    }

    /// Copies of the orders that `user_id` owns, in order of creation.
    pub fn list_orders(&self, user_id: u128) -> (r: Vec<Order>)
        ensures
            views(r@) == owned_by(self@, user_id),
    {
        select_owned(&self.orders, user_id)
    }

    /// Appends an item to the order with id `order_id`.
    pub fn add_item(&mut self, order_id: u128, product_id: u128, quantity: i32) -> (r: Result<
        (),
        OrderStoreError,
    >)
        requires
            old(self).wf(),
        ensures
            final(self).wf(),
            match lookup(old(self)@, order_id) {
                Some(o) => r == Ok::<(), OrderStoreError>(()) && final(self)@ == set_items(
                    old(self)@,
                    order_id,
                    o.items.push(Item { product_id, quantity }),
                ),
                None => r == Err::<(), OrderStoreError>(OrderStoreError::OrderNotFound(order_id))
                    && final(self)@ == old(self)@,
            },
    {
        match self.position_of(order_id) {
            Some(i) => {
                proof {
                    lemma_lookup_at(self@, i as int);
                }
                let ghost items = self@[i as int].items.push(Item { product_id, quantity });
                let mut order = self.orders.remove(i);
                order.add_item(product_id, quantity);
                self.orders.insert(i, order);
                assert(self@ =~= set_items(old(self)@, order_id, items));
                Ok(())
            },
            None => Err(OrderStoreError::OrderNotFound(order_id)),
        }
    }

    /// Removes the item at `index` of the order with id `order_id`, shifting
    /// the later items down by one.
    pub fn delete_item(&mut self, order_id: u128, index: usize) -> (r: Result<
        (),
        OrderStoreError,
    >)
        requires
            old(self).wf(),
        ensures
            final(self).wf(),
            match lookup(old(self)@, order_id) {
                Some(o) => if index < o.items.len() {
                    r == Ok::<(), OrderStoreError>(()) && final(self)@ == set_items(
                        old(self)@,
                        order_id,
                        o.items.remove(index as int),
                    )
                } else {
                    r == Err::<(), OrderStoreError>(OrderStoreError::ItemIndexOutOfBounds(index))
                        && final(self)@ == old(self)@
                },
                None => r == Err::<(), OrderStoreError>(OrderStoreError::OrderNotFound(order_id))
                    && final(self)@ == old(self)@,
            },
    {
        match self.position_of(order_id) {
            Some(i) => {
                proof {
                    lemma_lookup_at(self@, i as int);
                }
                if index >= self.orders[i].items.len() {
                    return Err(OrderStoreError::ItemIndexOutOfBounds(index));
                }
                let ghost items = self@[i as int].items.remove(index as int);
                let mut order = self.orders.remove(i);
                let _ = order.delete_item(index);
                self.orders.insert(i, order);
                assert(self@ =~= set_items(old(self)@, order_id, items));
                Ok(())
            },
            None => Err(OrderStoreError::OrderNotFound(order_id)),
        }
    }
}

/// Copies of the orders of `orders` that `user_id` owns, in their order.
pub fn select_owned(orders: &Vec<Order>, user_id: u128) -> (r: Vec<Order>)
    ensures
        views(r@) == owned_by(views(orders@), user_id),
{
    let ghost all = views(orders@);
    let mut out: Vec<Order> = Vec::new();
    let mut i: usize = 0;
    while i < orders.len()
        invariant
            i <= orders.len(),
            all == views(orders@),
            views(out@) == owned_by(all.take(i as int), user_id),
        decreases orders.len() - i,
    {
        proof {
            assert(all.take(i as int + 1) =~= all.take(i as int).push(all[i as int]));
            all.take(i as int).lemma_filter_push(all[i as int], |o: OrderView| o.user_id == user_id);
        }
        if orders[i].user_id == user_id {
            let copy = orders[i].snapshot();
            let ghost before = out@;
            out.push(copy);
            assert(views(out@) =~= views(before).push(copy@));
        }
        i += 1;
    }
    assert(all.take(orders.len() as int) =~= all);
    out
}

} // verus!
