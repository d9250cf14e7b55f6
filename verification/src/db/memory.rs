//! In-memory storage: the verified implementation of both repository
//! contracts, the test double that lets the order service run without a
//! live database. A switchable failure mode simulates unreachable storage.

use vstd::prelude::*;

use crate::db::OperationError;
use crate::db::menu::{Menu, Repository as MenuRepository, menu_name_at};
use crate::db::order::{
    Order, Repository as OrderRepository, filter_by_table, joined_row, lemma_filter_by_table_push,
    lemma_page_window_push, page_window, row_matches, sorted_by_created_at, unique_ids,
};

verus! {

/// One in-memory database: order rows kept ordered by creation time, the
/// menu rows that joins answer from, the next identity value, and a switch
/// that makes every storage call fail.
pub struct MemoryStore {
    orders: Vec<Order>,
    menus: Vec<Menu>,
    next_id: i64,
    fail: bool,
}

impl MemoryStore {
    /// Rows stay ordered by creation time; identifiers are unique, at least
    /// 1, and always below the next identity value.
    pub closed spec fn wf(&self) -> bool {
        &&& sorted_by_created_at(self.orders@)
        &&& unique_ids(self.orders@)
        &&& self.next_id >= 1
        &&& forall|i: int|
            0 <= i < self.orders@.len() ==> 1 <= (#[trigger] self.orders@[i]).order_id
                < self.next_id
    }

    /// Every storage call answers with this store's failure, when set.
    pub closed spec fn failing(&self) -> bool {
        self.fail
    }

    /// The identity column can still assign a fresh identifier.
    pub closed spec fn has_capacity(&self) -> bool {
        self.next_id < i64::MAX
    }

    /// An empty store that answers every call.
    pub fn new() -> (s: Self)
        ensures
            s.inv(),
            s.orders() == Seq::<Order>::empty(),
            s.menu_rows() == Seq::<Menu>::empty(),
            s.menus() == Seq::<Menu>::empty(),
            !s.failing(),
            s.has_capacity(),
    {
        MemoryStore { orders: Vec::new(), menus: Vec::new(), next_id: 1, fail: false }
    }

    /// An empty store whose identity column continues from `next_id`.
    pub fn with_next_id(next_id: i64) -> (s: Self)
        requires
            1 <= next_id < i64::MAX,
        ensures
            s.inv(),
            s.orders() == Seq::<Order>::empty(),
            s.menu_rows() == Seq::<Menu>::empty(),
            s.menus() == Seq::<Menu>::empty(),
            !s.failing(),
            s.has_capacity(),
    {
        MemoryStore { orders: Vec::new(), menus: Vec::new(), next_id, fail: false }
    }

    /// Add a menu row; joins and lookups answer from it afterwards.
    pub fn add_menu(&mut self, menu: Menu)
        requires
            old(self).inv(),
        ensures
            final(self).inv(),
            final(self).orders() == old(self).orders(),
            final(self).menus() == old(self).menus().push(menu),
            final(self).menu_rows() == old(self).menu_rows().push(menu),
            final(self).failing() == old(self).failing(),
            final(self).has_capacity() == old(self).has_capacity(),
    {
        self.menus.push(menu);
    }

    /// Switch the simulated storage failure on or off.
    pub fn set_fail(&mut self, fail: bool)
        requires
            old(self).inv(),
        ensures
            final(self).inv(),
            final(self).orders() == old(self).orders(),
            final(self).menus() == old(self).menus(),
            final(self).menu_rows() == old(self).menu_rows(),
            final(self).failing() == fail,
            final(self).has_capacity() == old(self).has_capacity(),
    {
        self.fail = fail;
    }
}

/// Both repository facades of one store answer from the same menu table.
pub proof fn lemma_menu_views_agree(s: &MemoryStore)
    ensures
        <MemoryStore as OrderRepository>::menu_rows(s) == <MemoryStore as MenuRepository>::menus(s),
{
}

/// The name of the first menu row carrying `menu_id`, by linear search.
fn lookup_menu_name(menus: &Vec<Menu>, menu_id: i64) -> (r: Option<String>)
    ensures
        match r {
            Some(s) => menu_name_at(menus@, menu_id as int) == Some(s@),
            None => menu_name_at(menus@, menu_id as int) is None,
        },
{
    let mut i: usize = 0;
    proof {
        assert(menus@.skip(0) =~= menus@);
    }
    while i < menus.len()
        invariant
            i <= menus@.len(),
            menu_name_at(menus@, menu_id as int) == menu_name_at(
                menus@.skip(i as int),
                menu_id as int,
            ),
        decreases menus@.len() - i,
    {
        if menus[i].id == menu_id {
            let name = menus[i].name.clone();
            proof {
                assert(menus@.skip(i as int)[0] == menus@[i as int]);
            }
            return Some(name);
        }
        proof {
            assert(menus@.skip(i as int).drop_first() =~= menus@.skip(i as int + 1));
            assert(menus@.skip(i as int)[0] == menus@[i as int]);
        }
        i += 1;
    }
    None
}

impl OrderRepository for MemoryStore {
    closed spec fn orders(&self) -> Seq<Order> {
        self.orders@
    }

    closed spec fn menu_rows(&self) -> Seq<Menu> {
        self.menus@
    }

    closed spec fn inv(&self) -> bool {
        self.wf()
    }

    fn create_order(&mut self, data: Order) -> (r: Result<Order, OperationError>)
        ensures
            !old(self).failing() && old(self).has_capacity() ==> r is Ok,
            final(self).failing() == old(self).failing(),
            final(self).menus() == old(self).menus(),
    {
        if self.fail {
            return Err(OperationError::OtherError);
        }
        if self.next_id == i64::MAX {
            return Err(
                OperationError::FailedToCreate(String::from_str("identity space exhausted")),
            );
        }
        let stored = Order {
            order_id: self.next_id,
            table_number: data.table_number,
            menu_id: data.menu_id,
            cook_time: data.cook_time,
            name: None,
            created_at: data.created_at,
        };
        let returned = Order {
            order_id: stored.order_id,
            table_number: stored.table_number,
            menu_id: stored.menu_id,
            cook_time: stored.cook_time,
            name: None,
            created_at: stored.created_at,
        };
        proof {
            assert(returned == stored);
        }
        let n = self.orders.len();
        let mut idx: usize = 0;
        while idx < n && self.orders[idx].created_at <= data.created_at
            invariant
                idx <= n,
                n == self.orders@.len(),
                forall|j: int|
                    0 <= j < idx ==> (#[trigger] self.orders@[j]).created_at <= data.created_at,
            decreases n - idx,
        {
            idx += 1;
        }
        proof {
            assert forall|j: int|
                idx <= j < self.orders@.len() implies (#[trigger] self.orders@[j]).created_at
                > data.created_at by {
                assert(self.orders@[idx as int].created_at > data.created_at);
                if j > idx {
                    assert(sorted_by_created_at(self.orders@));
                    assert(self.orders@[idx as int].created_at <= self.orders@[j].created_at);
                }
            }
        }
        self.orders.insert(idx, stored);
        self.next_id = self.next_id + 1;
        proof {
            let prev = old(self).orders@;
            let cur = self.orders@;
            prev.insert_ensures(idx as int, stored);
            assert(sorted_by_created_at(cur)) by {
                assert forall|a: int, b: int|
                    0 <= a < b < cur.len() implies cur[a].created_at <= cur[b].created_at by {
                    if b < idx {
                        assert(cur[a] == prev[a] && cur[b] == prev[b]);
                    } else if b == idx {
                        assert(cur[a] == prev[a] && cur[b] == stored);
                    } else {
                        assert(cur[b] == prev[b - 1]);
                        if a < idx {
                            assert(cur[a] == prev[a]);
                        } else if a == idx {
                            assert(cur[a] == stored);
                        } else {
                            assert(cur[a] == prev[a - 1]);
                        }
                    }
                }
            }
            assert(unique_ids(cur)) by {
                assert forall|a: int, b: int|
                    0 <= a < b < cur.len() implies cur[a].order_id != cur[b].order_id by {
                    if a != idx && b != idx {
                        let pa: int = if a < idx {
                            a
                        } else {
                            a - 1
                        };
                        let pb: int = if b < idx {
                            b
                        } else {
                            b - 1
                        };
                        assert(cur[a] == prev[pa] && cur[b] == prev[pb]);
                    }
                }
            }
        }
        Ok(returned)
    }

    fn list_by_table(&self, table_number: i32, page: u32, limit: u32) -> (r: Result<
        Vec<Order>,
        OperationError,
    >)
        ensures
            !self.failing() ==> r is Ok,
    {
        if self.fail {
            return Err(OperationError::OtherError);
        }
        proof {
            assert((page as int) * (limit as int) <= 0xffff_ffff * 0xffff_ffff && (page as int) * (
            limit as int) >= 0) by (nonlinear_arith)
                requires
                    0 <= page as int <= 0xffff_ffff,
                    0 <= limit as int <= 0xffff_ffff,
            ;
        }
        let offset: u64 = (page as u64) * (limit as u64);
        let upper: u64 = offset + (limit as u64);
        let ghost t = table_number as int;
        let mut out: Vec<Order> = Vec::new();
        let mut matched: u64 = 0;
        let mut idx: usize = 0;
        proof {
            assert(self.orders@.take(0) =~= Seq::<Order>::empty());
            assert(filter_by_table(self.orders@.take(0), t) =~= Seq::<Order>::empty());
        }
        while idx < self.orders.len()
            invariant
                limit >= 1,
                idx <= self.orders@.len(),
                offset == (page as int) * (limit as int),
                upper == offset + (limit as int),
                matched <= idx,
                matched as int == filter_by_table(self.orders@.take(idx as int), t).len(),
                t == table_number as int,
                out@.len() == page_window(
                    filter_by_table(self.orders@.take(idx as int), t),
                    page as int,
                    limit as int,
                ).len(),
                forall|k: int|
                    0 <= k < out@.len() ==> joined_row(
                        #[trigger] out@[k],
                        page_window(
                            filter_by_table(self.orders@.take(idx as int), t),
                            page as int,
                            limit as int,
                        )[k],
                        self.menus@,
                    ),
            decreases self.orders@.len() - idx,
        {
            let ghost fprev = filter_by_table(self.orders@.take(idx as int), t);
            proof {
                assert(self.orders@.take(idx as int + 1) =~= self.orders@.take(idx as int).push(
                    self.orders@[idx as int],
                ));
                lemma_filter_by_table_push(
                    self.orders@.take(idx as int),
                    self.orders@[idx as int],
                    t,
                );
            }
            let o = &self.orders[idx];
            if o.table_number == table_number {
                proof {
                    assert(filter_by_table(self.orders@.take(idx as int + 1), t) == fprev.push(
                        self.orders@[idx as int],
                    ));
                    lemma_page_window_push(fprev, self.orders@[idx as int], page as int, limit as int);
                }
                if matched >= offset && matched < upper {
                    let name = lookup_menu_name(&self.menus, o.menu_id as i64);
                    let row = Order {
                        order_id: o.order_id,
                        table_number: o.table_number,
                        menu_id: o.menu_id,
                        cook_time: o.cook_time,
                        name,
                        created_at: o.created_at,
                    };
                    out.push(row);
                }
                matched = matched + 1;
            } else {
                proof {
                    assert(filter_by_table(self.orders@.take(idx as int + 1), t) == fprev);
                }
            }
            idx += 1;
        }
        proof {
            assert(self.orders@.take(self.orders@.len() as int) =~= self.orders@);
        }
        Ok(out)
    }

    fn get_order_detail(&self, table_number: i32, order_id: i64) -> (r: Result<
        Option<Order>,
        OperationError,
    >)
        ensures
            !self.failing() ==> r is Ok,
    {
        if self.fail {
            return Err(OperationError::OtherError);
        }
        let mut i: usize = 0;
        while i < self.orders.len()
            invariant
                i <= self.orders@.len(),
                forall|j: int|
                    0 <= j < i ==> !row_matches(
                        #[trigger] self.orders@[j],
                        table_number as int,
                        order_id as int,
                    ),
            decreases self.orders@.len() - i,
        {
            let o = &self.orders[i];
            if o.table_number == table_number && o.order_id == order_id {
                let name = lookup_menu_name(&self.menus, o.menu_id as i64);
                let row = Order {
                    order_id: o.order_id,
                    table_number: o.table_number,
                    menu_id: o.menu_id,
                    cook_time: o.cook_time,
                    name,
                    created_at: o.created_at,
                };
                proof {
                    assert(0 <= (i as int) && (i as int) < self.orders().len() && row_matches(
                        self.orders()[i as int],
                        table_number as int,
                        order_id as int,
                    ) && joined_row(row, self.orders()[i as int], self.menu_rows()));
                }
                return Ok(Some(row));
            }
            i += 1;
        }
        Ok(None)
    }

    fn delete_order(&mut self, table_number: i32, order_id: i64) -> (r: Result<
        Option<i64>,
        OperationError,
    >)
        ensures
            !old(self).failing() ==> r is Ok,
            final(self).failing() == old(self).failing(),
            final(self).menus() == old(self).menus(),
            final(self).has_capacity() == old(self).has_capacity(),
    {
        if self.fail {
            return Err(OperationError::OtherError);
        }
        let n = self.orders.len();
        let mut i: usize = 0;
        while i < n
            invariant
                *self == *old(self),
                old(self).inv(),
                i <= n,
                n == self.orders@.len(),
                forall|j: int|
                    0 <= j < i ==> !row_matches(
                        #[trigger] self.orders@[j],
                        table_number as int,
                        order_id as int,
                    ),
            decreases n - i,
        {
            if self.orders[i].table_number == table_number && self.orders[i].order_id == order_id {
                proof {
                    assert(0 <= (i as int) && (i as int) < old(self).orders().len() && row_matches(
                        old(self).orders()[i as int],
                        table_number as int,
                        order_id as int,
                    ));
                }
                self.orders.remove(i);
                proof {
                    let prev = old(self).orders@;
                    let cur = self.orders@;
                    prev.remove_ensures(i as int);
                    assert(sorted_by_created_at(cur)) by {
                        assert forall|a: int, b: int|
                            0 <= a < b < cur.len() implies cur[a].created_at
                            <= cur[b].created_at by {
                            let pa: int = if a < i {
                                a
                            } else {
                                a + 1
                            };
                            let pb: int = if b < i {
                                b
                            } else {
                                b + 1
                            };
                            assert(cur[a] == prev[pa] && cur[b] == prev[pb]);
                        }
                    }
                    assert(unique_ids(cur)) by {
                        assert forall|a: int, b: int|
                            0 <= a < b < cur.len() implies cur[a].order_id != cur[b].order_id by {
                            let pa: int = if a < i {
                                a
                            } else {
                                a + 1
                            };
                            let pb: int = if b < i {
                                b
                            } else {
                                b + 1
                            };
                            assert(cur[a] == prev[pa] && cur[b] == prev[pb]);
                        }
                    }
                    assert forall|k: int|
                        0 <= k < cur.len() implies 1 <= (#[trigger] cur[k]).order_id
                        < self.next_id by {
                        let pk: int = if k < i {
                            k
                        } else {
                            k + 1
                        };
                        assert(cur[k] == prev[pk]);
                    }
                }
                return Ok(Some(order_id));
            }
            i += 1;
        }
        Ok(None)
    }
}

impl MenuRepository for MemoryStore {
    closed spec fn menus(&self) -> Seq<Menu> {
        self.menus@
    }

    fn get_by_id(&self, id: i64) -> (r: Result<Menu, OperationError>)
        ensures
            !self.failing() && menu_name_at(
                <MemoryStore as MenuRepository>::menus(self),
                id as int,
            ) is Some ==> r is Ok,
    {
        if self.fail {
            return Err(OperationError::OtherError);
        }
        match lookup_menu_name(&self.menus, id) {
            Some(name) => Ok(Menu::new(id, name)),
            None => Err(OperationError::FailedToCreate(String::from_str("no such menu"))),
        }
    }
}

} // verus!
