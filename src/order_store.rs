use vstd::prelude::*;

use crate::error::OrderStoreError;
use crate::order::Order;

verus! {

/// The operations that every backend offers. Each is atomic, may be called
/// concurrently from any number of callers, and hands out independent copies.
/// What a backend promises here holds whatever other callers do meanwhile.
pub trait OrderStore {
    /// Creates a new empty order for `user_id` under a fresh id and returns a copy.
    fn create_order(&self, user_id: u128) -> (r: Result<Order, OrderStoreError>)
        ensures
            match r {
                Ok(o) => o@.user_id == user_id && o@.items.len() == 0,
                Err(e) => e == OrderStoreError::StoreUnavailable,
            },
    ;

    /// A copy of the order with id `order_id`.
    fn get_order(&self, order_id: u128) -> (r: Result<Order, OrderStoreError>)
        ensures
            match r {
                Ok(o) => o@.id == order_id,
                Err(e) => e == OrderStoreError::StoreUnavailable || e
                    == OrderStoreError::OrderNotFound(order_id),
            },
    ;

    /// Copies of the orders that `user_id` owns.
    fn list_orders(&self, user_id: u128) -> (r: Result<Vec<Order>, OrderStoreError>)
        ensures
            match r {
                Ok(v) => forall|i: int| 0 <= i < v@.len() ==> (#[trigger] v@[i])@.user_id == user_id,
                Err(e) => e == OrderStoreError::StoreUnavailable,
            },
    ;

    /// Appends an item to the order with id `order_id`.
    fn add_item(&self, order_id: u128, product_id: u128, quantity: i32) -> (r: Result<
        (),
        OrderStoreError,
    >)
        ensures
            match r {
                Ok(_) => true,
                Err(e) => e == OrderStoreError::StoreUnavailable || e
                    == OrderStoreError::OrderNotFound(order_id),
            },
    ;

    /// Removes the item at position `index` of the order with id `order_id`.
    fn delete_item(&self, order_id: u128, index: usize) -> (r: Result<(), OrderStoreError>)
        ensures
            match r {
                Ok(_) => true,
                Err(e) => e == OrderStoreError::StoreUnavailable || e
                    == OrderStoreError::OrderNotFound(order_id) || e
                    == OrderStoreError::ItemIndexOutOfBounds(index),
            },
    ;
}

/// The one store of a process, shared by every request handler. Each
/// operation hands its arguments to the backend unchanged and returns what
/// the backend returned.
pub struct OrderStoreNewType<S: OrderStore> {
    store: S,
}

impl<S: OrderStore> OrderStoreNewType<S> {
    /// Wraps the backend `repo`.
    pub fn new(repo: S) -> (r: OrderStoreNewType<S>)
        ensures
            r.backend() == repo,
    {
        OrderStoreNewType { store: repo }
    }

    /// The wrapped backend.
    pub closed spec fn backend(&self) -> S {
        self.store
    }

    /// The wrapped backend.
    pub fn inner(&self) -> (r: &S)
        ensures
            *r == self.backend(),
    {
        &self.store
    }

    /// Same as the backend's `create_order`.
    pub fn create_order(&self, user_id: u128) -> (r: Result<Order, OrderStoreError>)
        ensures
            match r {
                Ok(o) => o@.user_id == user_id && o@.items.len() == 0,
                Err(e) => e == OrderStoreError::StoreUnavailable,
            },
            call_ensures(S::create_order, (&self.backend(), user_id), r),
    {
        self.store.create_order(user_id)
    }

    /// Same as the backend's `get_order`.
    pub fn get_order(&self, order_id: u128) -> (r: Result<Order, OrderStoreError>)
        ensures
            match r {
                Ok(o) => o@.id == order_id,
                Err(e) => e == OrderStoreError::StoreUnavailable || e
                    == OrderStoreError::OrderNotFound(order_id),
            },
            call_ensures(S::get_order, (&self.backend(), order_id), r),
    {
        self.store.get_order(order_id)
    }

    /// Same as the backend's `list_orders`.
    pub fn list_orders(&self, user_id: u128) -> (r: Result<Vec<Order>, OrderStoreError>)
        ensures
            match r {
                Ok(v) => forall|i: int| 0 <= i < v@.len() ==> (#[trigger] v@[i])@.user_id == user_id,
                Err(e) => e == OrderStoreError::StoreUnavailable,
            },
            call_ensures(S::list_orders, (&self.backend(), user_id), r),
    {
        self.store.list_orders(user_id)
    }

    /// Same as the backend's `add_item`.
    pub fn add_item(&self, order_id: u128, product_id: u128, quantity: i32) -> (r: Result<
        (),
        OrderStoreError,
    >)
        ensures
            match r {
                Ok(_) => true,
                Err(e) => e == OrderStoreError::StoreUnavailable || e
                    == OrderStoreError::OrderNotFound(order_id),
            },
            call_ensures(S::add_item, (&self.backend(), order_id, product_id, quantity), r),
    {
        self.store.add_item(order_id, product_id, quantity)
    }

    /// Same as the backend's `delete_item`.
    pub fn delete_item(&self, order_id: u128, index: usize) -> (r: Result<(), OrderStoreError>)
        ensures
            match r {
                Ok(_) => true,
                Err(e) => e == OrderStoreError::StoreUnavailable || e
                    == OrderStoreError::OrderNotFound(order_id) || e
                    == OrderStoreError::ItemIndexOutOfBounds(index),
            },
            call_ensures(S::delete_item, (&self.backend(), order_id, index), r),
    {
        self.store.delete_item(order_id, index)
    }
}

} // verus!
