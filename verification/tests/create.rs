use sukab_resto::db::memory::MemoryStore;
use sukab_resto::db::menu::Menu;
use sukab_resto::order::create::{handler, CookTime, CreateFailure, PathParams, RequestBody};
use sukab_resto::order::create::CookTimeBounds;
use sukab_resto::order::ErrorResponseBody;

/// given: zero table_id.
/// when: creating new order.
/// then: the call fails as a client error.
#[test]
fn create_test_invalid_table_id() {
    let mut store = MemoryStore::new();
    let table_number = 0;

    let result = handler(
        &mut store,
        PathParams { table_number },
        RequestBody { menu_id: 5 },
        CookTime::new(),
    );

    match result {
        Err(failure) => assert!((400..500).contains(&failure.status_code())),
        Ok(_) => panic!("out-of-range table number must be rejected"),
    }
}

/// given: all correct input request.
/// when: creating new order.
/// then: the call succeeds and the response carries the stored order.
#[test]
fn create_test_success() {
    let expect_menu_name = "Nasi Goreng".to_string();
    let expect_order_id = 123;

    let mut store = MemoryStore::with_next_id(expect_order_id);
    store.add_menu(Menu::new(5, expect_menu_name.clone()));

    let table_number = 3;

    let result = handler(
        &mut store,
        PathParams { table_number },
        RequestBody { menu_id: 5 },
        CookTime::new(),
    );

    let response_body = result.expect("create with valid inputs must succeed");
    assert_eq!(response_body.order.table_number, table_number as i32);
    assert_eq!(response_body.order.order_id, expect_order_id);
    assert_eq!(response_body.order.menu.name, expect_menu_name);
    assert_ne!(response_body.order.cook_time, 0);
    assert!(time::OffsetDateTime::parse(
        &response_body.order.created_at,
        &time::format_description::well_known::Rfc3339,
    )
    .is_ok());
}

/// given: broken database connection.
/// when: creating new order.
/// then: the call fails as a server error.
#[test]
fn test_failed_insert() {
    let mut store = MemoryStore::new();
    store.add_menu(Menu::new(5, "Nasi Goreng".to_string()));
    store.set_fail(true);

    let table_number = 3;

    let result = handler(
        &mut store,
        PathParams { table_number },
        RequestBody { menu_id: 5 },
        CookTime::new(),
    );

    match result {
        Err(failure) => assert!(failure.status_code() >= 500),
        Ok(_) => panic!("a storage failure must surface as a server error"),
    }
}

/// A storage failure on create answers with the fixed generic message, not
/// the underlying error text.
#[test]
fn create_storage_failure_message_is_generic() {
    let mut store = MemoryStore::new();
    store.set_fail(true);

    let result = handler(
        &mut store,
        PathParams { table_number: 3 },
        RequestBody { menu_id: 5 },
        CookTime::new(),
    );

    let failure = result.err().expect("create must fail on broken storage");
    assert_eq!(failure.status_code(), 500);
    match failure.error_body() {
        ErrorResponseBody::Server(body) => {
            assert!(body.error);
            assert_eq!(
                body.message,
                "An unknown server error has occurred, please try again later."
            );
        }
        ErrorResponseBody::Client(_) => panic!("a storage failure is a server error"),
    }
}

/// Out-of-range menu identifiers are rejected before any storage call.
#[test]
fn create_invalid_menu_id_rejected() {
    for menu_id in [0u32, 11, 100] {
        let mut store = MemoryStore::new();
        let result = handler(
            &mut store,
            PathParams { table_number: 3 },
            RequestBody { menu_id },
            CookTime::new(),
        );
        match result {
            Err(CreateFailure::InvalidInput(body)) => {
                assert!(body.error);
                assert_eq!(body.message, "menu_id must be in range of 5 to 10");
            }
            _ => panic!("out-of-range menu id must be rejected as invalid input"),
        }
    }
}

/// The table-number boundaries: 1 and 100 are accepted, 0 and 101 are not.
#[test]
fn create_table_number_boundaries() {
    for (table_number, accepted) in [(0u32, false), (1, true), (100, true), (101, false)] {
        let mut store = MemoryStore::new();
        store.add_menu(Menu::new(5, "Sate Ayam".to_string()));
        let result = handler(
            &mut store,
            PathParams { table_number },
            RequestBody { menu_id: 5 },
            CookTime::new(),
        );
        assert_eq!(result.is_ok(), accepted);
        if !accepted {
            match result {
                Err(CreateFailure::InvalidInput(body)) => {
                    assert_eq!(body.message, "table_number must be in range of 1 to 100");
                }
                _ => panic!("rejection must be a validation failure"),
            }
        }
    }
}

/// The returned cook time always lies within the configured bounds,
/// inclusive, for every draw.
#[test]
fn create_cook_time_within_bounds() {
    for _ in 0..100 {
        let mut store = MemoryStore::new();
        store.add_menu(Menu::new(5, "Gado Gado".to_string()));
        let result = handler(
            &mut store,
            PathParams { table_number: 3 },
            RequestBody { menu_id: 5 },
            CookTime::from_bounds(5, 10),
        );
        let body = result.expect("create with valid inputs must succeed");
        assert!((5..=10).contains(&body.order.cook_time));
    }
}

/// Equal bounds leave only one possible cook time.
#[test]
fn cook_time_degenerate_bounds() {
    for _ in 0..10 {
        assert_eq!(CookTime::from_bounds(7, 7).get_random(), 7);
    }
}

/// Cook-time configuration: the documented keys and defaults.
#[test]
fn cook_time_defaults_and_keys() {
    assert_eq!(CookTimeBounds::Min.env_key(), "COOK_TIME_MIN");
    assert_eq!(CookTimeBounds::Max.env_key(), "COOK_TIME_MAX");
    assert_eq!(CookTimeBounds::Min.default_value(), 5);
    assert_eq!(CookTimeBounds::Max.default_value(), 15);
    let default_interval = CookTime::new();
    assert_eq!(default_interval.min, 5);
    assert_eq!(default_interval.max, 15);
}
