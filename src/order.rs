use vstd::prelude::*;

use crate::error::OrderStoreError;

verus! {

/// One product line of an order.
#[derive(Clone, Copy, Debug, PartialEq, Eq, Structural)]
pub struct Item {
    /// Id of the product.
    pub product_id: u128,
    /// Number of units of this product; not validated.
    pub quantity: i32,
}

/// An order: its id, its owner and its items in order of insertion.
#[derive(Clone, Debug)]
pub struct Order {
    /// Identifies the order; assigned by the store, never changed.
    pub id: u128,
    /// The user that owns the order.
    pub user_id: u128,
    /// The items, addressed by position.
    pub items: Vec<Item>,
}

impl PartialEq for Order {
    fn eq(&self, other: &Order) -> (r: bool) {
        if self.id != other.id || self.user_id != other.user_id || self.items.len()
            != other.items.len() {
            return false;
        }
        let mut i: usize = 0;
        while i < self.items.len()
            invariant
                i <= self.items.len(),
                self.items.len() == other.items.len(),
                forall|k: int| 0 <= k < i ==> self.items@[k] == other.items@[k],
            decreases self.items.len() - i,
        {
            if self.items[i] != other.items[i] {
                return false;
            }
            i += 1;
        }
        assert(self.items@ =~= other.items@);
        true
    }
}

impl vstd::std_specs::cmp::PartialEqSpecImpl for Order {
    open spec fn obeys_eq_spec() -> bool {
        true
    }

    open spec fn eq_spec(&self, other: &Order) -> bool {
        self@ == other@
    }
}

/// The mathematical value of an order.
pub ghost struct OrderView {
    pub id: u128,
    pub user_id: u128,
    pub items: Seq<Item>,
}

impl View for Order {
    type V = OrderView;

    open spec fn view(&self) -> OrderView {
        OrderView { id: self.id, user_id: self.user_id, items: self.items@ }
    }
}

/// The order `o` with its items replaced by `items`.
pub open spec fn with_items(o: OrderView, items: Seq<Item>) -> OrderView {
    OrderView { id: o.id, user_id: o.user_id, items }
}

/// Whether `id` carries the version nibble of a random (version 4) id.
pub open spec fn is_random_id(id: u128) -> bool {
    (id >> 76u128) & 0xfu128 == 4u128
}

/// Relies on uuid::Uuid::new_v4, which draws a random id from the operating
/// system and sets the version nibble to 4.
#[verifier::external_body]
pub(crate) fn random_id() -> (r: u128)
    ensures
        is_random_id(r),
{
    uuid::Uuid::new_v4().as_u128()
}

impl Order {
    /// A new empty order for `user_id`, under a freshly drawn random id.
    pub fn new(user_id: u128) -> (r: Order)
        ensures
            r@.user_id == user_id,
            r@.items.len() == 0,
            is_random_id(r@.id),
    {
        Order::with_id(random_id(), user_id)
    }

    /// A new empty order with the given id and owner.
    pub fn with_id(id: u128, user_id: u128) -> (r: Order)
        ensures
            r@ == (OrderView { id, user_id, items: Seq::empty() }),
    {
        Order { id, user_id, items: Vec::new() }
    }

    /// An independent copy of this order.
    pub fn snapshot(&self) -> (r: Order)
        ensures
            r@ == self@,
    {
        let mut items: Vec<Item> = Vec::with_capacity(self.items.len());
        let mut i: usize = 0;
        while i < self.items.len()
            invariant
                i <= self.items.len(),
                items@ == self.items@.take(i as int),
            decreases self.items.len() - i,
        {
            items.push(self.items[i]);
            i += 1;
            assert(items@ =~= self.items@.take(i as int));
        }
        assert(items@ =~= self.items@);
        Order { id: self.id, user_id: self.user_id, items }
    }

    /// Appends an item with `product_id` and `quantity` at the end.
    pub fn add_item(&mut self, product_id: u128, quantity: i32)
        ensures
            final(self)@ == with_items(old(self)@, old(self)@.items.push(Item { product_id, quantity })),
    {
        self.items.push(Item { product_id, quantity });
    }

    /// Removes the item at `index`, shifting the later items down by one; an
    /// index past the end is refused and the order left unchanged.
    pub fn delete_item(&mut self, index: usize) -> (r: Result<(), OrderStoreError>)
        ensures
            index < old(self)@.items.len() ==> r == Ok::<(), OrderStoreError>(())
                && final(self)@ == with_items(old(self)@, old(self)@.items.remove(index as int)),
            index >= old(self)@.items.len() ==> r == Err::<(), OrderStoreError>(
                OrderStoreError::ItemIndexOutOfBounds(index),
            ) && final(self)@ == old(self)@,
    {
        if index < self.items.len() {
            self.items.remove(index);
            Ok(())
        } else {
            Err(OrderStoreError::ItemIndexOutOfBounds(index))
        }
    }
}

} // verus!
