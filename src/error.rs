use vstd::prelude::*;
use vstd::string::StringExecFns;

verus! {

/// The closed set of failures that a store operation can report.
#[derive(Clone, Copy, Debug, PartialEq, Eq, Structural)]
pub enum OrderStoreError {
    /// The store cannot currently serve any request.
    StoreUnavailable,
    /// No order with the given id is in the store.
    OrderNotFound(u128),
    /// The given item index is not a position of the order's items.
    ItemIndexOutOfBounds(usize),
}

/// The lowercase hexadecimal digit of `n`, for `n < 16`.
pub open spec fn hex_digit(n: u128) -> char {
    seq!['0', '1', '2', '3', '4', '5', '6', '7', '8', '9', 'a', 'b', 'c', 'd', 'e', 'f'][n as int]
}

/// The `d`-th hexadecimal digit of `id`, counting from the most significant.
pub open spec fn nibble(id: u128, d: int) -> u128 {
    (id >> ((124 - 4 * d) as u128)) & 0xfu128
}

/// Which digit of an id stands at position `i` of its hyphenated text.
pub open spec fn digit_at(i: int) -> int {
    if i < 8 {
        i
    } else if i < 13 {
        i - 1
    } else if i < 18 {
        i - 2
    } else if i < 23 {
        i - 3
    } else {
        i - 4
    }
}

/// The hyphenated text of an id: 32 lowercase hexadecimal digits, most
/// significant first, in groups of 8, 4, 4, 4 and 12 joined by `-`.
pub open spec fn hyphenated(id: u128) -> Seq<char> {
    Seq::new(
        36,
        |i: int|
            if i == 8 || i == 13 || i == 18 || i == 23 {
                '-'
            } else {
                hex_digit(nibble(id, digit_at(i)))
            },
    )
}

/// The decimal digit of `n`, for `n < 10`.
pub open spec fn decimal_digit(n: nat) -> char {
    seq!['0', '1', '2', '3', '4', '5', '6', '7', '8', '9'][n as int]
}

/// The decimal text of `n`, without leading zeros.
pub open spec fn decimal(n: nat) -> Seq<char>
    decreases n,
{
    if n < 10 {
        seq![decimal_digit(n)]
    } else {
        decimal(n / 10).push(decimal_digit(n % 10))
    }
}

/// The text that describes an error.
pub open spec fn message_of(e: OrderStoreError) -> Seq<char> {
    match e {
        OrderStoreError::StoreUnavailable => "Store unavailable"@,
        OrderStoreError::OrderNotFound(id) => "Order not found "@ + hyphenated(id),
        OrderStoreError::ItemIndexOutOfBounds(index) => "Item index out of bounds: "@ + decimal(
            index as nat,
        ),
    }
}

/// Relies on uuid's `Display` for `Uuid::from_u128(id)`, which writes the
/// lowercase hyphenated form of the id's big-endian bytes.
#[verifier::external_body]
fn id_text(id: u128) -> (r: String)
    ensures
        r@ == hyphenated(id),
{
    uuid::Uuid::from_u128(id).to_string()
}

/// Relies on std's `Display` for `usize`, which writes the number in decimal.
#[verifier::external_body]
fn index_text(n: usize) -> (r: String)
    ensures
        r@ == decimal(n as nat),
{
    n.to_string()
}

impl OrderStoreError {
    /// The text that describes this error.
    pub fn message(&self) -> (r: String)
        ensures
            r@ == message_of(*self),
    {
        match self {
            OrderStoreError::StoreUnavailable => {
                proof {
                    reveal_strlit("Store unavailable");
                }
                String::from_str("Store unavailable")
            },
            OrderStoreError::OrderNotFound(id) => {
                proof {
                    reveal_strlit("Order not found ");
                }
                let mut text = String::from_str("Order not found ");
                let id_part = id_text(*id);
                text.append(id_part.as_str());
                text
            },
            OrderStoreError::ItemIndexOutOfBounds(index) => {
                proof {
                    reveal_strlit("Item index out of bounds: ");
                }
                let mut text = String::from_str("Item index out of bounds: ");
                let index_part = index_text(*index);
                text.append(index_part.as_str());
                text
            },
        }
    }

    /// The HTTP status that the transport layer answers with for this error.
    pub fn http_status(&self) -> (r: u16)
        ensures
            r == match *self {
                OrderStoreError::StoreUnavailable => 503u16,
                OrderStoreError::OrderNotFound(_) => 404u16,
                OrderStoreError::ItemIndexOutOfBounds(_) => 400u16,
            },
    {
        match self {
            OrderStoreError::StoreUnavailable => 503,
            OrderStoreError::OrderNotFound(_) => 404,
            OrderStoreError::ItemIndexOutOfBounds(_) => 400,
        }
    }
}

} // verus!
