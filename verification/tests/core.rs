use sukab_resto::db::memory::MemoryStore;
use sukab_resto::db::menu::{Menu, Repository};
use sukab_resto::db::OperationError;
use sukab_resto::order::create;
use sukab_resto::order::delete;
use sukab_resto::order::detail;
use sukab_resto::order::list;
use sukab_resto::order::{ErrorResponseBody, OrderData};

/// Round trip: an order created with table 3 and menu 5 is retrievable via
/// detail at the same table with matching fields, a menu name derived from
/// the menu identifier, and a cook time within bounds; listing table 3
/// includes it.
#[test]
fn round_trip_create_detail_list() {
    let mut store = MemoryStore::new();
    store.add_menu(Menu::new(5, "Rendang".to_string()));

    let created = create::handler(
        &mut store,
        create::PathParams { table_number: 3 },
        create::RequestBody { menu_id: 5 },
        create::CookTime::from_bounds(5, 15),
    )
    .expect("create with valid inputs must succeed");
    let order_id = created.order.order_id;

    let found = detail::handler(
        &store,
        detail::PathParams { table_number: 3, order_id: order_id as u32 },
    )
    .expect("detail must succeed")
    .expect("the created order must be found");
    assert_eq!(found.order.table_number, 3);
    assert_eq!(found.order.order_id, order_id);
    assert_eq!(found.order.menu.id, 5);
    assert_eq!(found.order.menu.name, "Rendang");
    assert!((5..=15).contains(&found.order.cook_time));
    assert_eq!(found.order.cook_time, created.order.cook_time);
    assert_eq!(found.order.created_at, created.order.created_at);

    let listing = list::handler(
        &store,
        list::PathParams { table_number: 3 },
        list::QueryParams { limit: Some(100), page: None },
    )
    .expect("listing must succeed");
    assert!(listing.orders.iter().any(|o| o.order_id == order_id));
}

/// A rejected request performs no storage call: after out-of-range inputs,
/// the store still holds nothing.
#[test]
fn validation_failures_leave_storage_untouched() {
    let mut store = MemoryStore::new();
    store.add_menu(Menu::new(5, "Soto".to_string()));

    let bad_table = create::handler(
        &mut store,
        create::PathParams { table_number: 101 },
        create::RequestBody { menu_id: 5 },
        create::CookTime::new(),
    );
    assert!(bad_table.is_err());

    let bad_menu = create::handler(
        &mut store,
        create::PathParams { table_number: 3 },
        create::RequestBody { menu_id: 0 },
        create::CookTime::new(),
    );
    assert!(bad_menu.is_err());

    let listing = list::handler(
        &store,
        list::PathParams { table_number: 3 },
        list::QueryParams { limit: None, page: None },
    )
    .expect("listing must succeed");
    assert!(listing.orders.is_empty());
}

/// Every operation rejects an out-of-range table number as a client error.
#[test]
fn every_operation_validates_the_table_number() {
    for table_number in [0u32, 101] {
        let mut store = MemoryStore::new();
        assert_eq!(
            create::handler(
                &mut store,
                create::PathParams { table_number },
                create::RequestBody { menu_id: 5 },
                create::CookTime::new(),
            )
            .err()
            .expect("create must reject")
            .status_code(),
            400
        );
        assert_eq!(
            list::handler(
                &store,
                list::PathParams { table_number },
                list::QueryParams { limit: None, page: None },
            )
            .err()
            .expect("list must reject")
            .status_code(),
            400
        );
        assert_eq!(
            detail::handler(&store, detail::PathParams { table_number, order_id: 1 })
                .err()
                .expect("detail must reject")
                .status_code(),
            400
        );
        assert_eq!(
            delete::handler(&mut store, delete::PathParams { table_number, order_id: 1 })
                .err()
                .expect("delete must reject")
                .status_code(),
            400
        );
    }
}

/// The fixed interchange format: the epoch renders as its RFC 3339 text.
#[test]
fn format_time_exact_value() {
    assert_eq!(OrderData::format_time(0), "1970-01-01T00:00:00Z");
    assert_eq!(OrderData::format_time(1546300800), "2019-01-01T00:00:00Z");
    // a timestamp beyond year 9999 cannot format and gets the placeholder
    assert_eq!(OrderData::format_time(i64::MAX), "---");
}

/// A validation failure keeps its own message on the wire; its status is 400.
#[test]
fn client_error_body_carries_the_message() {
    let mut store = MemoryStore::new();
    let failure = create::handler(
        &mut store,
        create::PathParams { table_number: 0 },
        create::RequestBody { menu_id: 5 },
        create::CookTime::new(),
    )
    .err()
    .expect("create must reject");
    assert_eq!(failure.status_code(), 400);
    match failure.error_body() {
        ErrorResponseBody::Client(body) => {
            assert!(body.error);
            assert_eq!(body.message, "table_number must be in range of 1 to 100");
        }
        ErrorResponseBody::Server(_) => panic!("a validation failure is a client error"),
    }
}

/// The menu repository answers the first row with the identifier, and a
/// missing identifier is never answered successfully.
#[test]
fn menu_lookup_by_id() {
    let mut store = MemoryStore::new();
    store.add_menu(Menu::new(1, "Bakso".to_string()));
    store.add_menu(Menu::new(2, "Sate".to_string()));

    let menu = store.get_by_id(2).expect("an existing menu must be found");
    assert_eq!(menu.id, 2);
    assert_eq!(menu.name, "Sate");

    let missing = store.get_by_id(9);
    assert!(matches!(missing, Err(OperationError::FailedToCreate(_))));

    store.set_fail(true);
    assert!(store.get_by_id(2).is_err());
}

/// The storage error taxonomy keeps its kinds apart for logging.
#[test]
fn operation_error_kinds() {
    assert_eq!(
        OperationError::FailedToConnect("pool exhausted".to_string()).kind(),
        "connection failure"
    );
    assert_eq!(OperationError::FailedToCreate("rejected".to_string()).kind(), "create failure");
    assert_eq!(OperationError::FailedToGetDetail("lost".to_string()).kind(), "detail failure");
    assert_eq!(OperationError::OtherError.kind(), "storage failure");
}

/// Menu entities carry their identifier and name unchanged.
#[test]
fn menu_new_keeps_fields() {
    let menu = Menu::new(7, "Pecel".to_string());
    assert_eq!(menu.id, 7);
    assert_eq!(menu.name, "Pecel");
}

/// The per-operation validators, on their own inputs.
#[test]
fn validators_check_ranges() {
    let ok = create::Input { table_number: 100, menu_id: 10, cook_time: 5 };
    assert!(ok.validate().is_ok());
    let bad_menu = create::Input { table_number: 3, menu_id: 11, cook_time: 5 };
    assert!(bad_menu.validate().is_err());

    assert!(delete::Input::new(1, 1).validate().is_ok());
    assert!(delete::Input::new(0, 1).validate().is_err());

    assert!(detail::Input::new(detail::PathParams { table_number: 100, order_id: 1 })
        .validate()
        .is_ok());
    assert!(detail::Input::new(detail::PathParams { table_number: 101, order_id: 1 })
        .validate()
        .is_err());

    let normalized = list::Input::new(
        list::PathParams { table_number: 2 },
        list::QueryParams { limit: Some(0), page: None },
    );
    assert_eq!(normalized.limit, 1);
    assert_eq!(normalized.page, 0);
    assert!(normalized.validate().is_ok());
}
