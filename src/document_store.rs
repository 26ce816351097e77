//! What a document-store backend decides from the record it has read: the
//! order to hand out, or the record to write back, or the error.
use vstd::prelude::*;

use crate::error::OrderStoreError;
use crate::order::{Item, Order, with_items};

verus! {

/// The order read under `order_id`: a record that is missing or that carries
/// another id is reported as not found.
pub fn order_from_lookup(order_id: u128, found: Option<Order>) -> (r: Result<Order, OrderStoreError>)
    ensures
        match found {
            Some(o) => if o.id == order_id {
                (r matches Ok(got) && got@ == o@)
            } else {
                r == Err::<Order, OrderStoreError>(OrderStoreError::OrderNotFound(order_id))
            },
            None => r == Err::<Order, OrderStoreError>(OrderStoreError::OrderNotFound(order_id)),
        },
{
    match found {
        Some(o) => if o.id == order_id {
            Ok(o)
        } else {
            Err(OrderStoreError::OrderNotFound(order_id))
        },
        None => Err(OrderStoreError::OrderNotFound(order_id)),
    }
}

/// The record to write back after appending an item to the order read under
/// `order_id`.
pub fn with_item_added(order_id: u128, found: Option<Order>, product_id: u128, quantity: i32) -> (r:
    Result<Order, OrderStoreError>)
    ensures
        match found {
            Some(o) => if o.id == order_id {
                (r matches Ok(next) && next@ == with_items(
                    o@,
                    o@.items.push(Item { product_id, quantity }),
                ))
            } else {
                r == Err::<Order, OrderStoreError>(OrderStoreError::OrderNotFound(order_id))
            },
            None => r == Err::<Order, OrderStoreError>(OrderStoreError::OrderNotFound(order_id)),
        },
{
    let mut order = order_from_lookup(order_id, found)?;
    order.add_item(product_id, quantity);
    Ok(order)
}

/// The record to write back after deleting the item at `index` of the order
/// read under `order_id`.
pub fn with_item_deleted(order_id: u128, found: Option<Order>, index: usize) -> (r: Result<
    Order,
    OrderStoreError,
>)
    ensures
        match found {
            Some(o) => if o.id != order_id {
                r == Err::<Order, OrderStoreError>(OrderStoreError::OrderNotFound(order_id))
            } else if index < o@.items.len() {
                (r matches Ok(next) && next@ == with_items(o@, o@.items.remove(index as int)))
            } else {
                r == Err::<Order, OrderStoreError>(OrderStoreError::ItemIndexOutOfBounds(index))
            },
            None => r == Err::<Order, OrderStoreError>(OrderStoreError::OrderNotFound(order_id)),
        },
{
    let mut order = match order_from_lookup(order_id, found) {
        Ok(o) => o,
        Err(e) => return Err(e),
    };
    match order.delete_item(index) {
        Ok(()) => Ok(order),
        Err(e) => Err(e),
    }
}

} // verus!
