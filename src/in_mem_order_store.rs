use vstd::prelude::*;
use vstd::rwlock::{RwLock, RwLockPredicate};

use crate::book::OrderBook;
use crate::error::OrderStoreError;
use crate::order::Order;
use crate::order_store::OrderStore;

verus! {

/// What the lock guarantees of the book it guards: its invariant.
pub struct WellFormedBook {}

impl RwLockPredicate<OrderBook> for WellFormedBook {
    open spec fn inv(self, v: OrderBook) -> bool {
        v.wf()
    }
}

/// The in-process backend: one order book behind a readers-writer lock, so
/// that every operation runs atomically with respect to all others.
pub struct InMemOrderStore {
    book: RwLock<OrderBook, WellFormedBook>,
}

impl InMemOrderStore {
    /// A store with no orders.
    pub fn new() -> (r: InMemOrderStore) {
        InMemOrderStore { book: RwLock::new(OrderBook::new(), Ghost(WellFormedBook {})) }
    }
}

impl OrderStore for InMemOrderStore {
    fn create_order(&self, user_id: u128) -> (r: Result<Order, OrderStoreError>) {
        let (mut book, handle) = self.book.acquire_write();
        let r = book.create_order(user_id);
        handle.release_write(book);
        r
    }

    fn get_order(&self, order_id: u128) -> (r: Result<Order, OrderStoreError>) {
        let handle = self.book.acquire_read();
        let r = handle.borrow().get_order(order_id);
        handle.release_read();
        proof {
            crate::book::lemma_lookup_found(handle.view()@, order_id);
        }
        r
    }

    fn list_orders(&self, user_id: u128) -> (r: Result<Vec<Order>, OrderStoreError>) {
        let handle = self.book.acquire_read();
        let v = handle.borrow().list_orders(user_id);
        handle.release_read();
        proof {
            crate::book::lemma_owned_by_owner(handle.view()@, user_id);
            assert forall|i: int| 0 <= i < v@.len() implies (#[trigger] v@[i])@.user_id
                == user_id by {
                assert(crate::book::views(v@)[i] == v@[i]@);
            }
        }
        Ok(v)
    }

    fn add_item(&self, order_id: u128, product_id: u128, quantity: i32) -> (r: Result<
        (),
        OrderStoreError,
    >) {
        let (mut book, handle) = self.book.acquire_write();
        let r = book.add_item(order_id, product_id, quantity);
        handle.release_write(book);
        r
    }

    fn delete_item(&self, order_id: u128, index: usize) -> (r: Result<(), OrderStoreError>) {
        let (mut book, handle) = self.book.acquire_write();
        let r = book.delete_item(order_id, index);
        handle.release_write(book);
        r
    }
}

} // verus!
