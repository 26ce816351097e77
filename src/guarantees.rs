//! Laws that relate the operations of an order book, stated over the views
//! that their contracts speak of.
use vstd::prelude::*;

use crate::book::{has_id, ids_unique, lemma_lookup_at, lookup, owned_by, set_items};
use crate::order::{Item, OrderView, with_items};

verus! {

/// Creating an order keeps the ids unique, and reading its id right after
/// gives back exactly the order that creation returned.
pub proof fn lemma_get_after_create(before: Seq<OrderView>, created: OrderView)
    requires
        ids_unique(before),
        !has_id(before, created.id),
    ensures
        ids_unique(before.push(created)),
        lookup(before.push(created), created.id) == Some(created),
        forall|id: u128| id != created.id ==> lookup(before.push(created), id) == lookup(before, id),
{
    let after = before.push(created);
    assert(ids_unique(after)) by {
        assert forall|i: int, j: int|
            0 <= i < after.len() && 0 <= j < after.len() && i != j implies after[i].id
            != after[j].id by {
            if i == before.len() {
                assert(after[j] == before[j]);
            } else if j == before.len() {
                assert(after[i] == before[i]);
            }
        }
    }
    lemma_lookup_at(after, before.len() as int);
    assert forall|id: u128| id != created.id implies lookup(after, id) == lookup(before, id) by {
        if has_id(before, id) {
            let i = choose|i: int| 0 <= i < before.len() && before[i].id == id;
            lemma_lookup_at(before, i);
            lemma_lookup_at(after, i);
        } else {
            assert(!has_id(after, id));
        }
    }
}

/// Listing a user's orders gives exactly the orders that the user owns, no
/// matter which orders other users hold.
pub proof fn lemma_list_is_exactly_owned(s: Seq<OrderView>, user_id: u128)
    ensures
        forall|o: OrderView|
            owned_by(s, user_id).contains(o) <==> s.contains(o) && o.user_id == user_id,
{
    let pred = |o: OrderView| o.user_id == user_id;
    assert forall|o: OrderView| owned_by(s, user_id).contains(o) <==> s.contains(o) && o.user_id
        == user_id by {
        if owned_by(s, user_id).contains(o) {
            s.lemma_filter_contains_rev(pred, o);
        }
        if s.contains(o) && o.user_id == user_id {
            let i = choose|i: int| 0 <= i < s.len() && s[i] == o;
            s.lemma_filter_contains(pred, i);
        }
    }
}

/// A new order joins the list of its owner at the end and leaves every other
/// user's list as it was.
pub proof fn lemma_create_lists_once(before: Seq<OrderView>, created: OrderView, user_id: u128)
    ensures
        created.user_id == user_id ==> owned_by(before.push(created), user_id) == owned_by(
            before,
            user_id,
        ).push(created),
        created.user_id != user_id ==> owned_by(before.push(created), user_id) == owned_by(
            before,
            user_id,
        ),
{
    before.lemma_filter_push(created, |o: OrderView| o.user_id == user_id);
}

/// Replacing the items of one order changes that order alone.
pub proof fn lemma_set_items(s: Seq<OrderView>, id: u128, items: Seq<Item>)
    requires
        ids_unique(s),
        has_id(s, id),
    ensures
        ids_unique(set_items(s, id, items)),
        set_items(s, id, items).len() == s.len(),
        lookup(set_items(s, id, items), id) == Some(with_items(lookup(s, id).unwrap(), items)),
        forall|other: u128| other != id ==> lookup(set_items(s, id, items), other) == lookup(s, other),
{
    let after = set_items(s, id, items);
    let k = choose|i: int| 0 <= i < s.len() && s[i].id == id;
    lemma_lookup_at(s, k);
    assert forall|i: int| 0 <= i < after.len() implies (#[trigger] after[i]).id == s[i].id by {}
    assert(after[k] == with_items(s[k], items));
    lemma_lookup_at(after, k);
    assert forall|other: u128| other != id implies lookup(after, other) == lookup(s, other) by {
        if has_id(s, other) {
            let j = choose|i: int| 0 <= i < s.len() && s[i].id == other;
            lemma_lookup_at(s, j);
            lemma_lookup_at(after, j);
        } else {
            assert(!has_id(after, other));
        }
    }
}

/// Adding an item to an order grows its items by exactly one, the new item
/// at the end, the earlier ones unchanged.
pub proof fn lemma_add_item_appends(s: Seq<OrderView>, id: u128, product_id: u128, quantity: i32)
    requires
        ids_unique(s),
        has_id(s, id),
    ensures
        ({
            let before = lookup(s, id).unwrap().items;
            let after = lookup(
                set_items(s, id, before.push(Item { product_id, quantity })),
                id,
            ).unwrap().items;
            &&& lookup(set_items(s, id, before.push(Item { product_id, quantity })), id) is Some
            &&& after.len() == before.len() + 1
            &&& after.last() == (Item { product_id, quantity })
            &&& after.drop_last() == before
        }),
{
    let before = lookup(s, id).unwrap().items;
    lemma_set_items(s, id, before.push(Item { product_id, quantity }));
    assert(before.push(Item { product_id, quantity }).drop_last() =~= before);
}

/// Deleting the item at a valid position removes exactly that item: the
/// earlier ones keep their places, the later ones move down by one.
pub proof fn lemma_delete_item_shifts(s: Seq<OrderView>, id: u128, index: int)
    requires
        ids_unique(s),
        has_id(s, id),
        0 <= index < lookup(s, id).unwrap().items.len(),
    ensures
        ({
            let before = lookup(s, id).unwrap().items;
            let after = lookup(set_items(s, id, before.remove(index)), id).unwrap().items;
            &&& lookup(set_items(s, id, before.remove(index)), id) is Some
            &&& after.len() == before.len() - 1
            &&& forall|k: int| 0 <= k < index ==> after[k] == before[k]
            &&& forall|k: int| index <= k < after.len() ==> after[k] == before[k + 1]
        }),
{
    let before = lookup(s, id).unwrap().items;
    lemma_set_items(s, id, before.remove(index));
}

} // verus!
