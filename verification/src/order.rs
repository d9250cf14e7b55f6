//! Order operations: the per-operation services, their wire representations
//! and the error bodies they answer with.

pub mod create;
pub mod delete;
pub mod detail;
pub mod list;

use vstd::prelude::*;

use crate::db::menu::{Menu, menu_name_at};
use crate::db::order::Order;

verus! {

/// The RFC 3339 text of a UTC instant given as seconds since the Unix epoch.
pub uninterp spec fn rfc3339_of(ts: int) -> Seq<char>;

/// Timestamps of the years 1970 through 9999: the range on which RFC 3339
/// formatting is owed to succeed (the format refuses years above 9999 only,
/// and a non-negative timestamp never falls before 1970).
pub open spec fn rfc3339_in_range(ts: int) -> bool {
    0 <= ts <= 253402300799
}

/// Relies on time's `OffsetDateTime::from_unix_timestamp` and its Rfc3339
/// formatting: the text depends on the timestamp alone, and formatting a
/// UTC instant fails only for years outside 0 through 9999.
#[verifier::external_body]
pub(crate) fn format_rfc3339(ts: i64) -> (r: Option<String>)
    ensures
        r matches Some(s) ==> s@ == rfc3339_of(ts as int),
        rfc3339_in_range(ts as int) ==> r is Some,
{
    match time::OffsetDateTime::from_unix_timestamp(ts) {
        Ok(dt) => dt.format(&time::format_description::well_known::Rfc3339).ok(),
        Err(_) => None,
    }
}

/// Table numbers name one of the restaurant's physical tables.
pub open spec fn valid_table_number(table_number: u32) -> bool {
    1 <= table_number <= 100
}

/// Menu identifiers name one of the purchasable items.
pub open spec fn valid_menu_id(menu_id: u32) -> bool {
    1 <= menu_id <= 10
}

/// The wire representation of a menu inside an order response.
pub struct MenuData {
    pub id: i64,
    pub name: String,
}

/// The wire representation of one order: the persisted fields, the menu it
/// references, and the creation timestamp as RFC 3339 text.
pub struct OrderData {
    pub order_id: i64,
    pub table_number: i32,
    pub cook_time: i32,
    pub menu: MenuData,
    pub created_at: String,
}

impl OrderData {
    /// The creation timestamp as RFC 3339 text; a formatting failure
    /// substitutes a fixed placeholder rather than failing the response.
    pub fn format_time(ts: i64) -> (r: String)
        ensures
            rfc3339_in_range(ts as int) ==> r@ == rfc3339_of(ts as int),
            r@ == rfc3339_of(ts as int) || r@ == "---"@,
    {
        match format_rfc3339(ts) {
            Some(s) => s,
            None => String::from_str("---"),
        }
    }
}

/// `d` renders the joined row `row`: every persisted field is carried over,
/// an absent menu name becomes the empty string, and the timestamp is the
/// row's RFC 3339 text, or `placeholder` where formatting failed.
pub open spec fn order_data_of_row(d: OrderData, row: Order, placeholder: Seq<char>) -> bool {
    &&& d.order_id == row.order_id
    &&& d.table_number == row.table_number
    &&& d.cook_time == row.cook_time
    &&& d.menu.id == row.menu_id as i64
    &&& d.menu.name@ == match row.name {
        Some(n) => n@,
        None => ""@,
    }
    &&& d.created_at@ == rfc3339_of(row.created_at as int) || d.created_at@ == placeholder
    &&& rfc3339_in_range(row.created_at as int) ==> d.created_at@ == rfc3339_of(
        row.created_at as int,
    )
}

/// `d` renders the stored row `stored` as seen through the join with
/// `menus`: every persisted field is carried over, the menu name is the row
/// the menu identifier points at (the empty string where none does), and the
/// timestamp is the row's RFC 3339 text, or `placeholder` where formatting
/// failed.
pub open spec fn rendered_row(
    d: OrderData,
    stored: Order,
    menus: Seq<Menu>,
    placeholder: Seq<char>,
) -> bool {
    &&& d.order_id == stored.order_id
    &&& d.table_number == stored.table_number
    &&& d.cook_time == stored.cook_time
    &&& d.menu.id == stored.menu_id as i64
    &&& d.menu.name@ == match menu_name_at(menus, stored.menu_id as int) {
        Some(n) => n,
        None => ""@,
    }
    &&& (d.created_at@ == rfc3339_of(stored.created_at as int) || d.created_at@ == placeholder)
    &&& (rfc3339_in_range(stored.created_at as int) ==> d.created_at@ == rfc3339_of(
        stored.created_at as int,
    ))
}

/// The body of a client-error response: a flag and a message naming the
/// violated field.
#[derive(Debug)]
pub struct BadRequestBody {
    pub error: bool,
    pub message: String,
}

/// The body of a server-error response: a flag and the fixed generic
/// message; the underlying cause is logged, never exposed.
#[derive(Debug)]
pub struct InternalServerErrorBody {
    pub error: bool,
    pub message: String,
}

/// What an operation failure answers with on the wire: the caller's own
/// message for an input violation, the fixed generic body for a storage
/// failure.
#[derive(Debug)]
pub enum ErrorResponseBody {
    Client(BadRequestBody),
    Server(InternalServerErrorBody),
}

/// The fixed generic message of every server-error response.
pub fn server_error_message() -> (r: String)
    ensures
        r@ == "An unknown server error has occurred, please try again later."@,
{
    String::from_str("An unknown server error has occurred, please try again later.")
}

} // verus!
