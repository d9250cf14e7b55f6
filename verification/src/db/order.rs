//! Order repository: create, paginated list-by-table, detail lookup and
//! delete, together with the storage contract every backend must satisfy.

use vstd::prelude::*;

use crate::db::OperationError;
use crate::db::menu::{Menu, menu_name_at};

verus! {

/// A single order. The identifier is non-authoritative (zero) until storage
/// assigns one; the menu name is populated only when rows are joined with
/// menu data at read time; the creation timestamp is seconds since the Unix
/// epoch, set once when the entity is built and never changed afterwards.
pub struct Order {
    pub order_id: i64,
    pub table_number: i32,
    pub menu_id: i32,
    pub cook_time: i32,
    pub name: Option<String>,
    pub created_at: i64,
}

/// Relies on time's `OffsetDateTime::now_utc` and `unix_timestamp`: the
/// current UTC wall-clock time as seconds since the Unix epoch. Nothing can
/// be promised of the value; whatever the clock holds comes back.
#[verifier::external_body]
fn now_unix() -> i64 {
    time::OffsetDateTime::now_utc().unix_timestamp()
}

impl Order {
    /// Build a new order entity for a later create call: identifier unset,
    /// no menu name, creation timestamp drawn from the clock once.
    pub fn new(table_number: i32, menu_id: i32, cook_time: i32) -> (o: Order)
        ensures
            o.order_id == 0,
            o.table_number == table_number,
            o.menu_id == menu_id,
            o.cook_time == cook_time,
            o.name is None,
    {
        Order {
            order_id: 0,
            table_number,
            menu_id,
            cook_time,
            name: None,
            created_at: now_unix(),
        }
    }
}

/// The row is scoped to exactly this table and carries this identifier.
pub open spec fn row_matches(o: Order, table_number: int, order_id: int) -> bool {
    o.table_number == table_number && o.order_id == order_id
}

/// The rows that belong to `table_number`, in storage order.
pub open spec fn filter_by_table(rows: Seq<Order>, table_number: int) -> Seq<Order>
    decreases rows.len(),
{
    if rows.len() == 0 {
        Seq::empty()
    } else {
        let rest = filter_by_table(rows.drop_last(), table_number);
        if rows.last().table_number == table_number {
            rest.push(rows.last())
        } else {
            rest
        }
    }
}

/// One more row at the end joins the table's rows exactly when it belongs
/// to the table.
pub proof fn lemma_filter_by_table_push(rows: Seq<Order>, x: Order, table_number: int)
    ensures
        filter_by_table(rows.push(x), table_number) == if x.table_number == table_number {
            filter_by_table(rows, table_number).push(x)
        } else {
            filter_by_table(rows, table_number)
        },
{
    assert(rows.push(x).drop_last() =~= rows);
    assert(rows.push(x).last() == x);
}

/// The page of `rows` selected by a zero-based `page` of width `limit`:
/// rows `[page*limit, page*limit + limit)`, clipped to the sequence.
pub open spec fn page_window(rows: Seq<Order>, page: int, limit: int) -> Seq<Order>
    recommends
        page >= 0,
        limit >= 0,
{
    let start = if page * limit <= rows.len() {
        page * limit
    } else {
        rows.len() as int
    };
    let end = if page * limit + limit <= rows.len() {
        page * limit + limit
    } else {
        rows.len() as int
    };
    rows.subrange(start, end)
}

/// How one more row at the end of the listing changes a page: a row that
/// lands inside the requested window extends it; any other row leaves the
/// window unchanged.
pub proof fn lemma_page_window_push(s: Seq<Order>, x: Order, page: int, limit: int)
    requires
        page >= 0,
        limit >= 1,
    ensures
        page * limit <= s.len() < page * limit + limit ==> page_window(s.push(x), page, limit)
            == page_window(s, page, limit).push(x),
        !(page * limit <= s.len() < page * limit + limit) ==> page_window(s.push(x), page, limit)
            == page_window(s, page, limit),
{
    assert(page * limit >= 0) by (nonlinear_arith)
        requires
            page >= 0,
            limit >= 1,
    ;
    let off = page * limit;
    let n = s.len() as int;
    let w0 = page_window(s, page, limit);
    let w1 = page_window(s.push(x), page, limit);
    if off <= n && n < off + limit {
        assert(w1 =~= w0.push(x));
    } else {
        assert(w1 =~= w0);
    }
}

/// Rows are ordered by creation time, ascending.
pub open spec fn sorted_by_created_at(rows: Seq<Order>) -> bool {
    forall|i: int, j: int|
        0 <= i < j < rows.len() ==> rows[i].created_at <= rows[j].created_at
}

/// No two rows carry the same identifier (storage assigns identifiers from
/// an identity column).
pub open spec fn unique_ids(rows: Seq<Order>) -> bool {
    forall|i: int, j: int|
        0 <= i < j < rows.len() ==> rows[i].order_id != rows[j].order_id
}

/// `row` is `stored` joined with its menu name: every persisted field is
/// kept, and the name is the menu row the identifier points at, if any.
pub open spec fn joined_row(row: Order, stored: Order, menus: Seq<Menu>) -> bool {
    &&& row.order_id == stored.order_id
    &&& row.table_number == stored.table_number
    &&& row.menu_id == stored.menu_id
    &&& row.cook_time == stored.cook_time
    &&& row.created_at == stored.created_at
    &&& match row.name {
        Some(n) => menu_name_at(menus, stored.menu_id as int) == Some(n@),
        None => menu_name_at(menus, stored.menu_id as int) is None,
    }
}

/// Deletion is idempotent: under unique identifiers, once the row scoped to
/// table and identifier is removed, no row matches any more, so a second
/// delete of the same identifier answers "not found".
pub proof fn lemma_delete_idempotent(rows: Seq<Order>, table_number: int, order_id: int, i: int)
    requires
        unique_ids(rows),
        0 <= i < rows.len(),
        row_matches(rows[i], table_number, order_id),
    ensures
        forall|j: int|
            0 <= j < rows.remove(i).len() ==> !row_matches(
                #[trigger] rows.remove(i)[j],
                table_number,
                order_id,
            ),
{
    rows.remove_ensures(i);
    assert forall|j: int|
        0 <= j < rows.remove(i).len() implies !row_matches(
        #[trigger] rows.remove(i)[j],
        table_number,
        order_id,
    ) by {
        let pj: int = if j < i {
            j
        } else {
            j + 1
        };
        assert(rows.remove(i)[j] == rows[pj]);
        assert(rows[pj].order_id != rows[i].order_id);
    }
}

/// An order belongs to exactly the table it was created for: under unique
/// identifiers, a lookup scoped to any other table misses, even with an
/// identifier that exists.
pub proof fn lemma_wrong_table_misses(rows: Seq<Order>, i: int, table_number: int)
    requires
        unique_ids(rows),
        0 <= i < rows.len(),
        rows[i].table_number != table_number,
    ensures
        forall|j: int|
            0 <= j < rows.len() ==> !row_matches(
                #[trigger] rows[j],
                table_number,
                rows[i].order_id as int,
            ),
{
    assert forall|j: int|
        0 <= j < rows.len() implies !row_matches(
        #[trigger] rows[j],
        table_number,
        rows[i].order_id as int,
    ) by {
        if j != i {
            assert(rows[j].order_id != rows[i].order_id);
        }
    }
}

/// A row of the table stands among the table's filtered rows.
pub proof fn lemma_filter_by_table_contains(rows: Seq<Order>, table_number: int, i: int)
    requires
        0 <= i < rows.len(),
        rows[i].table_number == table_number,
    ensures
        filter_by_table(rows, table_number).contains(rows[i]),
    decreases rows.len(),
{
    if i == rows.len() - 1 {
        let rest = filter_by_table(rows.drop_last(), table_number);
        assert(filter_by_table(rows, table_number) == rest.push(rows[i]));
        assert(rest.push(rows[i])[rest.len() as int] == rows[i]);
    } else {
        lemma_filter_by_table_contains(rows.drop_last(), table_number, i);
        let rest = filter_by_table(rows.drop_last(), table_number);
        let k = choose|k: int| 0 <= k < rest.len() && rest[k] == rows.drop_last()[i];
        assert(rows.drop_last()[i] == rows[i]);
        if rows.last().table_number == table_number {
            assert(filter_by_table(rows, table_number) == rest.push(rows.last()));
            assert(rest.push(rows.last())[k] == rows[i]);
        } else {
            assert(filter_by_table(rows, table_number) == rest);
        }
    }
}

/// Round trip of a create: the row a successful create inserts is the one
/// and only row matching its own table and fresh identifier, so a detail
/// lookup scoped to that pair finds exactly it, and the table's listing
/// contains it.
pub proof fn lemma_create_then_find(rows: Seq<Order>, stored: Order, i: int)
    requires
        0 <= i <= rows.len(),
        forall|j: int| 0 <= j < rows.len() ==> (#[trigger] rows[j]).order_id != stored.order_id,
    ensures
        exists|j: int|
            0 <= j < rows.insert(i, stored).len() && row_matches(
                #[trigger] rows.insert(i, stored)[j],
                stored.table_number as int,
                stored.order_id as int,
            ),
        forall|j: int|
            0 <= j < rows.insert(i, stored).len() && row_matches(
                #[trigger] rows.insert(i, stored)[j],
                stored.table_number as int,
                stored.order_id as int,
            ) ==> rows.insert(i, stored)[j] == stored,
        filter_by_table(rows.insert(i, stored), stored.table_number as int).contains(stored),
{
    rows.insert_ensures(i, stored);
    let cur = rows.insert(i, stored);
    assert(cur[i] == stored);
    assert(row_matches(cur[i], stored.table_number as int, stored.order_id as int));
    assert forall|j: int|
        0 <= j < cur.len() && row_matches(
            #[trigger] cur[j],
            stored.table_number as int,
            stored.order_id as int,
        ) implies cur[j] == stored by {
        if j < i {
            assert(cur[j] == rows[j]);
        } else if j > i {
            assert(cur[j] == rows[j - 1]);
        }
    }
    lemma_filter_by_table_contains(cur, stored.table_number as int, i);
}

/// Order repository abstraction: the contract every storage backend must
/// satisfy. Implementations expose the persisted order rows as `orders()`
/// (always ordered by creation time, with unique identifiers) and the menu
/// table they join against as `menu_rows()`. A storage failure may occur on
/// any call; a failed call never changes the persisted rows, and each
/// operation's failures stay within its own error classes.
pub trait Repository: Sized {
    /// The persisted order rows, ordered by creation time ascending.
    spec fn orders(&self) -> Seq<Order>;

    /// The menu rows that list and detail lookups join against.
    spec fn menu_rows(&self) -> Seq<Menu>;

    /// Rows are sorted by creation time and identifiers are unique.
    spec fn inv(&self) -> bool;

    /// Store the order. On success the returned entity is the stored one:
    /// the fields given, plus a storage-assigned identifier no other row
    /// carries, inserted so that rows stay ordered by creation time.
    fn create_order(&mut self, data: Order) -> (r: Result<Order, OperationError>)
        requires
            old(self).inv(),
            data.order_id == 0,
            data.name is None,
        ensures
            final(self).inv(),
            final(self).menu_rows() == old(self).menu_rows(),
            match r {
                Ok(stored) => {
                    &&& stored.table_number == data.table_number
                    &&& stored.menu_id == data.menu_id
                    &&& stored.cook_time == data.cook_time
                    &&& stored.created_at == data.created_at
                    &&& stored.name is None
                    &&& forall|i: int|
                        0 <= i < old(self).orders().len()
                            ==> (#[trigger] old(self).orders()[i]).order_id != stored.order_id
                    &&& exists|i: int|
                        0 <= i <= old(self).orders().len()
                            && final(self).orders() == old(self).orders().insert(i, stored)
                },
                Err(e) => {
                    &&& final(self).orders() == old(self).orders()
                    &&& !(e is FailedToGetDetail)
                },
            },
    ;

    /// List the rows of one table, joined with their menu names, windowed
    /// by a zero-based page of width `limit`.
    fn list_by_table(&self, table_number: i32, page: u32, limit: u32) -> (r: Result<
        Vec<Order>,
        OperationError,
    >)
        requires
            self.inv(),
            limit >= 1,
        ensures
            match r {
                Ok(rows) => {
                    let win = page_window(
                        filter_by_table(self.orders(), table_number as int),
                        page as int,
                        limit as int,
                    );
                    &&& rows@.len() == win.len()
                    &&& forall|i: int|
                        0 <= i < win.len()
                            ==> joined_row(#[trigger] rows@[i], win[i], self.menu_rows())
                },
                Err(e) => !(e is FailedToGetDetail),
            },
    ;

    /// Look one row up, scoped to both table and identifier, joined with its
    /// menu name. Absence is a successful outcome carrying `None`.
    fn get_order_detail(&self, table_number: i32, order_id: i64) -> (r: Result<
        Option<Order>,
        OperationError,
    >)
        requires
            self.inv(),
        ensures
            match r {
                Ok(Some(row)) => exists|i: int|
                    0 <= i < self.orders().len()
                        && row_matches(
                        #[trigger] self.orders()[i],
                        table_number as int,
                        order_id as int,
                    ) && joined_row(row, self.orders()[i], self.menu_rows()),
                Ok(None) => forall|i: int|
                    0 <= i < self.orders().len()
                        ==> !row_matches(
                        #[trigger] self.orders()[i],
                        table_number as int,
                        order_id as int,
                    ),
                Err(e) => !(e is FailedToCreate),
            },
    ;

    /// Delete the row scoped to table and identifier. The identifier comes
    /// back if a row was removed, `None` if none matched; deletion is
    /// idempotent, a second call finds nothing.
    fn delete_order(&mut self, table_number: i32, order_id: i64) -> (r: Result<
        Option<i64>,
        OperationError,
    >)
        requires
            old(self).inv(),
        ensures
            final(self).inv(),
            final(self).menu_rows() == old(self).menu_rows(),
            match r {
                Ok(Some(oid)) => {
                    &&& oid == order_id
                    &&& exists|i: int|
                        0 <= i < old(self).orders().len()
                            && row_matches(
                            #[trigger] old(self).orders()[i],
                            table_number as int,
                            order_id as int,
                        ) && final(self).orders() == old(self).orders().remove(i)
                },
                Ok(None) => {
                    &&& final(self).orders() == old(self).orders()
                    &&& forall|i: int|
                        0 <= i < old(self).orders().len()
                            ==> !row_matches(
                            #[trigger] old(self).orders()[i],
                            table_number as int,
                            order_id as int,
                        )
                },
                Err(_) => final(self).orders() == old(self).orders(),
            },
    ;
}

} // verus!
