use std::sync::Arc;

use order_store::book::{select_owned, OrderBook};
use order_store::document_store::{order_from_lookup, with_item_added, with_item_deleted};
use order_store::error::OrderStoreError;
use order_store::in_mem_order_store::InMemOrderStore;
use order_store::order::{Item, Order};
use order_store::order_store::{OrderStore, OrderStoreNewType};

const U1: u128 = 0xa1a2a3a4b1b2c1c2d1d2d3d4d5d6d7d8;
const U2: u128 = 0x11112222333344445555666677778888;
const P1: u128 = 0x0101;
const P2: u128 = 0x0202;

fn item(product_id: u128, quantity: i32) -> Item {
    Item { product_id, quantity }
}

#[test]
fn scenario_add_and_delete_items() {
    let store = OrderStoreNewType::new(InMemOrderStore::new());
    let o1 = store.create_order(U1).unwrap();
    assert!(o1.items.is_empty());
    store.add_item(o1.id, P1, 2).unwrap();
    assert_eq!(store.get_order(o1.id).unwrap().items, vec![item(P1, 2)]);
    store.add_item(o1.id, P2, 1).unwrap();
    assert_eq!(store.get_order(o1.id).unwrap().items, vec![item(P1, 2), item(P2, 1)]);
    store.delete_item(o1.id, 0).unwrap();
    assert_eq!(store.get_order(o1.id).unwrap().items, vec![item(P2, 1)]);
    assert_eq!(store.delete_item(o1.id, 5), Err(OrderStoreError::ItemIndexOutOfBounds(5)));
    assert_eq!(store.get_order(o1.id).unwrap().items, vec![item(P2, 1)]);
}

#[test]
fn create_gives_empty_order_with_fresh_id() {
    let store = InMemOrderStore::new();
    let mut seen: Vec<u128> = Vec::new();
    for _ in 0..50 {
        let o = store.create_order(U1).unwrap();
        assert_eq!(o.user_id, U1);
        assert!(o.items.is_empty());
        assert!(!seen.contains(&o.id));
        seen.push(o.id);
    }
}

#[test]
fn new_order_has_random_version_id() {
    let a = Order::new(U1);
    let b = Order::new(U1);
    assert_eq!((a.id >> 76) & 0xf, 4);
    assert_eq!((b.id >> 76) & 0xf, 4);
    assert_ne!(a.id, b.id);
    assert_eq!(a.user_id, U1);
    assert!(a.items.is_empty());
}

#[test]
fn get_after_create_returns_same_order() {
    let store = InMemOrderStore::new();
    let created = store.create_order(U2).unwrap();
    let got = store.get_order(created.id).unwrap();
    assert_eq!(got.id, created.id);
    assert_eq!(got.user_id, created.user_id);
    assert_eq!(got.items, created.items);
}

#[test]
fn list_returns_exactly_the_users_orders() {
    let store = InMemOrderStore::new();
    let a = store.create_order(U1).unwrap();
    let _b = store.create_order(U2).unwrap();
    let c = store.create_order(U1).unwrap();
    let listed = store.list_orders(U1).unwrap();
    let ids: Vec<u128> = listed.iter().map(|o| o.id).collect();
    assert_eq!(ids, vec![a.id, c.id]);
    assert!(listed.iter().all(|o| o.user_id == U1));
    assert!(store.list_orders(0x99).unwrap().is_empty());
}

#[test]
fn returned_orders_are_copies() {
    let store = InMemOrderStore::new();
    let created = store.create_order(U1).unwrap();
    let mut copy = store.get_order(created.id).unwrap();
    copy.items.push(item(P1, 7));
    assert!(store.get_order(created.id).unwrap().items.is_empty());
}

#[test]
fn add_item_appends_at_end() {
    let store = InMemOrderStore::new();
    let o = store.create_order(U1).unwrap();
    store.add_item(o.id, P1, 3).unwrap();
    store.add_item(o.id, P2, -4).unwrap();
    let items = store.get_order(o.id).unwrap().items;
    assert_eq!(items.len(), 2);
    assert_eq!(items[1], item(P2, -4));
}

#[test]
fn delete_item_shifts_later_items() {
    let store = InMemOrderStore::new();
    let o = store.create_order(U1).unwrap();
    for q in 0..4 {
        store.add_item(o.id, P1, q).unwrap();
    }
    store.delete_item(o.id, 1).unwrap();
    let items = store.get_order(o.id).unwrap().items;
    assert_eq!(items, vec![item(P1, 0), item(P1, 2), item(P1, 3)]);
}

#[test]
fn delete_past_end_leaves_items() {
    let store = InMemOrderStore::new();
    let o = store.create_order(U1).unwrap();
    store.add_item(o.id, P1, 1).unwrap();
    assert_eq!(store.delete_item(o.id, 1), Err(OrderStoreError::ItemIndexOutOfBounds(1)));
    assert_eq!(store.get_order(o.id).unwrap().items, vec![item(P1, 1)]);
}

#[test]
fn unknown_order_is_not_found() {
    let store = InMemOrderStore::new();
    store.create_order(U1).unwrap();
    let missing: u128 = 42;
    assert_eq!(store.get_order(missing).err(), Some(OrderStoreError::OrderNotFound(missing)));
    assert_eq!(store.add_item(missing, P1, 1), Err(OrderStoreError::OrderNotFound(missing)));
    assert_eq!(store.delete_item(missing, 0), Err(OrderStoreError::OrderNotFound(missing)));
}

#[test]
fn concurrent_creates_give_distinct_ids() {
    let n: usize = 32;
    let store = Arc::new(OrderStoreNewType::new(InMemOrderStore::new()));
    let runtime = tokio::runtime::Builder::new_multi_thread().worker_threads(4).build().unwrap();
    let ids: Vec<u128> = runtime.block_on(async {
        let mut tasks = Vec::new();
        for _ in 0..n {
            let s = Arc::clone(&store);
            tasks.push(tokio::task::spawn_blocking(move || s.create_order(U1).unwrap().id));
        }
        let mut ids = Vec::new();
        for t in tasks {
            ids.push(t.await.unwrap());
        }
        ids
    });
    let mut sorted = ids.clone();
    sorted.sort();
    sorted.dedup();
    assert_eq!(sorted.len(), n);
    let listed = store.list_orders(U1).unwrap();
    assert_eq!(listed.len(), n);
    assert!(listed.iter().all(|o| ids.contains(&o.id)));
}

#[test]
fn book_refuses_taken_id() {
    let mut book = OrderBook::new();
    let o = book.create_order_with_id(U1, 7).unwrap();
    assert_eq!(o.id, 7);
    assert_eq!(book.create_order_with_id(U2, 7).err(), Some(OrderStoreError::StoreUnavailable));
    assert_eq!(book.len(), 1);
    assert!(book.contains_order(7));
    assert!(!book.contains_order(8));
    assert_eq!(book.get_order(7).unwrap().user_id, U1);
}

#[test]
fn book_scenario() {
    let mut book = OrderBook::new();
    let o = book.create_order(U1).unwrap();
    book.add_item(o.id, P1, 2).unwrap();
    book.add_item(o.id, P2, 1).unwrap();
    book.delete_item(o.id, 0).unwrap();
    assert_eq!(book.get_order(o.id).unwrap().items, vec![item(P2, 1)]);
    assert_eq!(book.delete_item(o.id, 5), Err(OrderStoreError::ItemIndexOutOfBounds(5)));
    assert_eq!(book.list_orders(U1).len(), 1);
    assert!(book.list_orders(U2).is_empty());
}

#[test]
fn select_owned_keeps_order() {
    let orders = vec![Order::with_id(1, U1), Order::with_id(2, U2), Order::with_id(3, U1)];
    let ids: Vec<u128> = select_owned(&orders, U1).iter().map(|o| o.id).collect();
    assert_eq!(ids, vec![1, 3]);
}

#[test]
fn http_status_of_each_error() {
    assert_eq!(OrderStoreError::StoreUnavailable.http_status(), 503);
    assert_eq!(OrderStoreError::OrderNotFound(1).http_status(), 404);
    assert_eq!(OrderStoreError::ItemIndexOutOfBounds(0).http_status(), 400);
}

#[test]
fn document_lookup_mapping() {
    assert_eq!(order_from_lookup(5, None).err(), Some(OrderStoreError::OrderNotFound(5)));
    assert_eq!(
        order_from_lookup(5, Some(Order::with_id(6, U1))).err(),
        Some(OrderStoreError::OrderNotFound(5))
    );
    assert_eq!(order_from_lookup(5, Some(Order::with_id(5, U1))).unwrap().id, 5);
}

#[test]
fn document_item_updates() {
    let added = with_item_added(5, Some(Order::with_id(5, U1)), P1, 2).unwrap();
    assert_eq!(added.items, vec![item(P1, 2)]);
    assert_eq!(
        with_item_added(5, None, P1, 2).err(),
        Some(OrderStoreError::OrderNotFound(5))
    );
    let deleted = with_item_deleted(5, Some(added.snapshot()), 0).unwrap();
    assert!(deleted.items.is_empty());
    assert_eq!(
        with_item_deleted(5, Some(added), 1).err(),
        Some(OrderStoreError::ItemIndexOutOfBounds(1))
    );
}

#[test]
fn handle_passes_through_to_backend() {
    let handle = OrderStoreNewType::new(InMemOrderStore::new());
    let o = handle.create_order(U2).unwrap();
    let direct = handle.inner().get_order(o.id).unwrap();
    assert_eq!(direct.user_id, U2);
    assert_eq!(handle.inner().list_orders(U2).unwrap().len(), 1);
}

#[test]
fn error_messages() {
    assert_eq!(OrderStoreError::StoreUnavailable.message(), "Store unavailable");
    assert_eq!(
        OrderStoreError::OrderNotFound(U1).message(),
        "Order not found a1a2a3a4-b1b2-c1c2-d1d2-d3d4d5d6d7d8"
    );
    assert_eq!(OrderStoreError::OrderNotFound(0x0f).message(), "Order not found 00000000-0000-0000-0000-00000000000f");
    assert_eq!(OrderStoreError::ItemIndexOutOfBounds(5).message(), "Item index out of bounds: 5");
    assert_eq!(OrderStoreError::ItemIndexOutOfBounds(120).message(), "Item index out of bounds: 120");
}

#[test]
fn orders_compare_by_value() {
    let mut a = Order::with_id(3, U1);
    let mut b = Order::with_id(3, U1);
    assert_eq!(a, b);
    a.add_item(P1, 2);
    assert_ne!(a, b);
    b.add_item(P1, 2);
    assert_eq!(a, b);
    assert_eq!(a.snapshot(), a);
    assert_ne!(Order::with_id(3, U1), Order::with_id(3, U2));
}

#[test]
fn create_in_empty_book_succeeds() {
    let mut book = OrderBook::new();
    let o = book.create_order(U1).unwrap();
    assert_eq!(o.user_id, U1);
    assert!(o.items.is_empty());
    assert_eq!(book.len(), 1);
    assert_eq!(book.get_order(o.id).unwrap(), o);
}
