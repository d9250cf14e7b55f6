use sukab_resto::db::memory::MemoryStore;
use sukab_resto::db::menu::Menu;
use sukab_resto::order::create;
use sukab_resto::order::delete::{handler, PathParams};

fn store_with_order(table_number: u32, next_id: i64) -> MemoryStore {
    let mut store = MemoryStore::with_next_id(next_id);
    store.add_menu(Menu::new(5, "Nasi Goreng".to_string()));
    create::handler(
        &mut store,
        create::PathParams { table_number },
        create::RequestBody { menu_id: 5 },
        create::CookTime::new(),
    )
    .expect("seeding an order must succeed");
    store
}

/// given: zero table_id.
/// when: delete an order.
/// then: the call fails as a client error.
#[test]
fn delete_test_invalid_table_id() {
    let mut store = MemoryStore::new();
    let table_number = 0;
    let order_id = 1;

    let result = handler(&mut store, PathParams { table_number, order_id });

    match result {
        Err(failure) => assert!((400..500).contains(&failure.status_code())),
        Ok(_) => panic!("out-of-range table number must be rejected"),
    }
}

/// given: all request and inputs are valid.
/// when: delete an order.
/// then: the call succeeds and answers with the removed identifier.
#[test]
fn delete_test_success() {
    let expect_order_id = 123;
    let table_number = 3;
    let mut store = store_with_order(table_number, expect_order_id as i64);

    let result = handler(&mut store, PathParams { table_number, order_id: expect_order_id });

    let response_body = result
        .expect("delete with valid inputs must succeed")
        .expect("the seeded order must be found");
    assert_eq!(response_body.order_id, expect_order_id as i64);
}

/// given: failure when accessing the database.
/// when: delete an order.
/// then: the call fails as a server error.
#[test]
fn delete_test_database_failure() {
    let table_number = 3;
    let expect_order_id = 222;

    let mut store = MemoryStore::new();
    store.set_fail(true);

    let result = handler(&mut store, PathParams { table_number, order_id: expect_order_id });

    match result {
        Err(failure) => assert!(failure.status_code() >= 500),
        Ok(_) => panic!("a storage failure must surface as a server error"),
    }
}

/// Deleting a nonexistent identifier answers "not found"; deleting the same
/// identifier twice answers "not found" the second time; the first
/// successful delete returns the identifier.
#[test]
fn delete_is_idempotent() {
    let table_number = 3;
    let mut store = store_with_order(table_number, 123);

    let missing = handler(&mut store, PathParams { table_number, order_id: 999 })
        .expect("delete of a nonexistent identifier is not an error");
    assert!(missing.is_none());

    let first = handler(&mut store, PathParams { table_number, order_id: 123 })
        .expect("the first delete must succeed");
    assert_eq!(first.expect("the seeded order must be found").order_id, 123);

    let second = handler(&mut store, PathParams { table_number, order_id: 123 })
        .expect("the second delete is not an error");
    assert!(second.is_none());
}

/// Delete scoped to the wrong table misses an existing identifier.
#[test]
fn delete_wrong_table_misses() {
    let mut store = store_with_order(3, 123);

    let other_table = handler(&mut store, PathParams { table_number: 4, order_id: 123 })
        .expect("delete scoped to another table is not an error");
    assert!(other_table.is_none());

    let same_table = handler(&mut store, PathParams { table_number: 3, order_id: 123 })
        .expect("delete scoped to the right table must succeed");
    assert_eq!(same_table.expect("the order must still be there").order_id, 123);
}
