use std::collections::HashMap;

use axum::http::StatusCode;
use order_service::db::{transaction_step, StoreError, TxCommand, TxState};
use order_service::handlers::{
    add_order, get_order_by_uid, AppState, CustomResponse, InsertReply, LookupReply, ReadAction,
    ReadEvent, WriteAction, WriteEvent, CONFLICT, CREATED, DATA_KEY, INTERNAL_SERVER_ERROR,
    NOT_FOUND, REQUEST_TIMEOUT,
};
use order_service::helpers::get_mock_order;
use order_service::models::Order;

/// A table in memory that answers the adapter's commands as a store with a
/// primary key does.
struct Table {
    rows: HashMap<String, Order>,
    open: Option<HashMap<String, Order>>,
}

impl Table {
    fn new() -> Table {
        Table { rows: HashMap::new(), open: None }
    }

    fn perform(&mut self, command: TxCommand, order: &Order) -> Result<(), StoreError> {
        match command {
            TxCommand::Begin => self.open = Some(self.rows.clone()),
            TxCommand::Execute => {
                let open = self.open.as_mut().expect("a statement runs in a transaction");
                if open.contains_key(&order.order_uid) {
                    return Err(StoreError { code: Some("23505".to_string()) });
                }
                open.insert(order.order_uid.clone(), order.clone());
            }
            TxCommand::Commit => self.rows = self.open.take().expect("a transaction is open"),
            TxCommand::Rollback => self.open = None,
        }
        Ok(())
    }

    fn insert(&mut self, order: &Order) -> InsertReply {
        let mut state = TxState::Beginning;
        let mut command = Some(TxCommand::Begin);
        while let Some(now) = command {
            let outcome = self.perform(now, order);
            let (next, then) = transaction_step(state, outcome);
            state = next;
            command = then;
        }
        assert!(self.open.is_none());
        match state {
            TxState::Done(Ok(())) => InsertReply::Inserted(1),
            TxState::Done(Err(error)) => InsertReply::Failed(error),
            other => panic!("the transaction stopped in {:?}", other),
        }
    }

    fn lookup(&self, order_uid: &str) -> LookupReply {
        match self.rows.get(order_uid) {
            Some(order) => LookupReply::Found(order.clone()),
            None => LookupReply::Absent,
        }
    }
}

fn submit(state: &mut AppState, table: &mut Table, order: Order) -> CustomResponse {
    let asked = match add_order(state, WriteEvent::Request(order)) {
        WriteAction::Insert(asked) => asked,
        other => panic!("a request asks for an insertion, not {:?}", other),
    };
    let reply = table.insert(&asked);
    match add_order(state, WriteEvent::Reply(reply)) {
        WriteAction::Respond(response) => response,
        other => panic!("a reply is answered, not {:?}", other),
    }
}

fn fetch(
    state: &mut AppState,
    table: &Table,
    order_uid: &str,
) -> (Result<Option<Order>, CustomResponse>, bool) {
    match get_order_by_uid(state, ReadEvent::Request(order_uid.to_string())) {
        ReadAction::Respond(response) => (response, false),
        ReadAction::Lookup(wanted) => {
            assert_eq!(wanted, order_uid);
            match get_order_by_uid(state, ReadEvent::Reply(table.lookup(&wanted))) {
                ReadAction::Respond(response) => (response, true),
                other => panic!("a reply is answered, not {:?}", other),
            }
        }
    }
}

fn respond_to_lookup(reply: LookupReply) -> CustomResponse {
    let mut state = AppState::new(10);
    match get_order_by_uid(&mut state, ReadEvent::Reply(reply)) {
        ReadAction::Respond(Err(response)) => response,
        other => panic!("expected a failure, not {:?}", other),
    }
}

fn respond_to_insert(reply: InsertReply) -> CustomResponse {
    let mut state = AppState::new(10);
    match add_order(&mut state, WriteEvent::Reply(reply)) {
        WriteAction::Respond(response) => response,
        other => panic!("expected a response, not {:?}", other),
    }
}

fn status(response: &CustomResponse) -> StatusCode {
    StatusCode::from_u16(response.code).unwrap()
}

#[test]
fn test_get_order_by_uid_from_cache() {
    let order_uid = "test_uid".to_string();
    let mut state = AppState::new(10);
    let test_order = get_mock_order(order_uid.clone());

    state.insert(&order_uid, test_order.clone());

    let result = get_order_by_uid(&mut state, ReadEvent::Request(order_uid.clone()));

    match result {
        ReadAction::Respond(Ok(Some(order))) => {
            assert_eq!(order.order_uid, test_order.order_uid);
        }
        _ => panic!("Test failed: expected order from cache"),
    }
}

#[test]
fn test_get_order_by_uid_from_db() {
    let order_uid = "test_get_order_by_uid_from_db".to_string();
    let mut state = AppState::new(10);
    let mut table = Table::new();
    let test_order = get_mock_order(order_uid.clone());

    assert!(matches!(table.insert(&test_order), InsertReply::Inserted(1)));
    assert_eq!(DATA_KEY, "data");

    let (result, asked_store) = fetch(&mut state, &table, &order_uid);

    assert!(asked_store);
    match result {
        Ok(Some(order)) => {
            assert_eq!(order.order_uid, test_order.order_uid);
        }
        _ => panic!("Test failed: expected order from DB"),
    }
}

#[test]
fn test_get_order_by_uid_not_found() {
    let order_uid = "non_existing_uid".to_string();
    let mut state = AppState::new(10);
    let table = Table::new();

    let (result, _) = fetch(&mut state, &table, &order_uid);

    match result {
        Err(CustomResponse { code, message }) => {
            assert_eq!(StatusCode::from_u16(code).unwrap(), StatusCode::NOT_FOUND);
            assert_eq!(message, "Not fount");
        }
        _ => panic!("Test failed: expected Not Found error"),
    }
}

#[test]
fn test_add_order_success() {
    let order_uid = "test_add_order_success".to_string();
    let mut state = AppState::new(10);
    let mut table = Table::new();
    let test_order = get_mock_order(order_uid.clone());

    let response = submit(&mut state, &mut table, test_order.clone());

    assert_eq!(status(&response), StatusCode::CREATED);
    assert_eq!(response.message, "Order successfully created");
}

#[test]
fn test_add_order_conflict() {
    let order_uid = "test_add_order_conflict".to_string();
    let mut state = AppState::new(10);
    let mut table = Table::new();
    let test_order = get_mock_order(order_uid.clone());

    assert!(matches!(table.insert(&test_order), InsertReply::Inserted(1)));

    let response = submit(&mut state, &mut table, test_order.clone());

    assert_eq!(status(&response), StatusCode::CONFLICT);
    assert_eq!(response.message, "Order already exists");
}

#[test]
fn status_numbers_are_those_of_http() {
    assert_eq!(CREATED, StatusCode::CREATED.as_u16());
    assert_eq!(NOT_FOUND, StatusCode::NOT_FOUND.as_u16());
    assert_eq!(REQUEST_TIMEOUT, StatusCode::REQUEST_TIMEOUT.as_u16());
    assert_eq!(CONFLICT, StatusCode::CONFLICT.as_u16());
    assert_eq!(INTERNAL_SERVER_ERROR, StatusCode::INTERNAL_SERVER_ERROR.as_u16());
}

#[test]
fn cache_hit_does_not_ask_the_store() {
    let mut state = AppState::new(10);
    let table = Table::new();
    state.insert("X", get_mock_order("X".to_string()));

    let (result, asked_store) = fetch(&mut state, &table, "X");

    assert!(!asked_store);
    assert_eq!(result.unwrap().unwrap().order_uid, "X");
}

#[test]
fn cache_miss_asks_for_the_same_identifier() {
    let mut state = AppState::new(10);
    state.insert("X", get_mock_order("X".to_string()));
    match get_order_by_uid(&mut state, ReadEvent::Request("Y".to_string())) {
        ReadAction::Lookup(wanted) => assert_eq!(wanted, "Y"),
        other => panic!("expected a lookup, not {:?}", other),
    }
}

#[test]
fn store_hit_fills_the_cache() {
    let mut state = AppState::new(10);
    let mut table = Table::new();
    let stored = get_mock_order("X".to_string());
    table.insert(&stored);

    let (first, asked_first) = fetch(&mut state, &table, "X");
    assert!(asked_first);
    assert_eq!(first.unwrap().unwrap().track_number, stored.track_number);

    let (second, asked_second) = fetch(&mut state, &table, "X");
    assert!(!asked_second);
    assert_eq!(second.unwrap().unwrap().track_number, stored.track_number);
}

#[test]
fn failed_lookups_fill_nothing() {
    let mut state = AppState::new(10);
    for reply in [
        LookupReply::Absent,
        LookupReply::Malformed,
        LookupReply::Failed(StoreError { code: None }),
        LookupReply::TimedOut,
    ] {
        assert!(matches!(
            get_order_by_uid(&mut state, ReadEvent::Request("X".to_string())),
            ReadAction::Lookup(_)
        ));
        assert!(matches!(
            get_order_by_uid(&mut state, ReadEvent::Reply(reply)),
            ReadAction::Respond(Err(_))
        ));
    }
    assert!(matches!(
        get_order_by_uid(&mut state, ReadEvent::Request("X".to_string())),
        ReadAction::Lookup(_)
    ));
}

#[test]
fn malformed_document_is_a_server_error() {
    let response = respond_to_lookup(LookupReply::Malformed);
    assert_eq!(status(&response), StatusCode::INTERNAL_SERVER_ERROR);
    assert_eq!(response.message, "Server error");
}

#[test]
fn failed_lookup_is_a_server_error() {
    let response = respond_to_lookup(LookupReply::Failed(StoreError { code: None }));
    assert_eq!(status(&response), StatusCode::INTERNAL_SERVER_ERROR);
    assert_eq!(response.message, "Server error");
    let response =
        respond_to_lookup(LookupReply::Failed(StoreError { code: Some("23505".to_string()) }));
    assert_eq!(response.code, 500);
    assert_eq!(response.message, "Server error");
}

#[test]
fn lookup_timeout_is_told_apart() {
    let timeout = respond_to_lookup(LookupReply::TimedOut);
    assert_eq!(status(&timeout), StatusCode::REQUEST_TIMEOUT);
    assert_eq!(timeout.message, "Database operation timed out");
    assert_ne!(timeout.code, respond_to_lookup(LookupReply::Absent).code);
    assert_ne!(timeout.code, respond_to_lookup(LookupReply::Malformed).code);
    assert_ne!(
        timeout.code,
        respond_to_lookup(LookupReply::Failed(StoreError { code: None })).code
    );
}

#[test]
fn insert_timeout_is_told_apart() {
    let timeout = respond_to_insert(InsertReply::TimedOut);
    assert_eq!(status(&timeout), StatusCode::REQUEST_TIMEOUT);
    assert_eq!(timeout.message, "Database operation timed out");
    assert_ne!(timeout.code, respond_to_insert(InsertReply::Inserted(1)).code);
    assert_ne!(
        timeout.code,
        respond_to_insert(InsertReply::Failed(StoreError { code: None })).code
    );
    assert_ne!(
        timeout.code,
        respond_to_insert(InsertReply::Failed(StoreError { code: Some("23505".to_string()) }))
            .code
    );
}

#[test]
fn other_insert_failures_are_server_errors() {
    for code in [None, Some("23503".to_string()), Some("08006".to_string())] {
        let response = respond_to_insert(InsertReply::Failed(StoreError { code }));
        assert_eq!(status(&response), StatusCode::INTERNAL_SERVER_ERROR);
        assert_eq!(response.message, "Error");
    }
}

#[test]
fn any_number_of_rows_is_created() {
    for rows in [0, 1, 2, u64::MAX] {
        let response = respond_to_insert(InsertReply::Inserted(rows));
        assert_eq!(response.code, 201);
        assert_eq!(response.message, "Order successfully created");
    }
}

#[test]
fn submitted_order_is_read_back_before_the_store_answers() {
    let mut state = AppState::new(10);
    let order = get_mock_order("X".to_string());
    let track_number = order.track_number.clone();

    match add_order(&mut state, WriteEvent::Request(order)) {
        WriteAction::Insert(asked) => assert_eq!(asked.track_number, track_number),
        other => panic!("expected an insertion, not {:?}", other),
    }

    match get_order_by_uid(&mut state, ReadEvent::Request("X".to_string())) {
        ReadAction::Respond(Ok(Some(found))) => assert_eq!(found.track_number, track_number),
        other => panic!("expected the order from the cache, not {:?}", other),
    }
}

#[test]
fn refused_order_stays_in_the_cache() {
    for reply in [
        InsertReply::TimedOut,
        InsertReply::Failed(StoreError { code: None }),
        InsertReply::Failed(StoreError { code: Some("23505".to_string()) }),
    ] {
        let mut state = AppState::new(10);
        let order = get_mock_order("X".to_string());
        let track_number = order.track_number.clone();
        assert!(matches!(
            add_order(&mut state, WriteEvent::Request(order)),
            WriteAction::Insert(_)
        ));
        assert!(matches!(
            add_order(&mut state, WriteEvent::Reply(reply)),
            WriteAction::Respond(_)
        ));
        match get_order_by_uid(&mut state, ReadEvent::Request("X".to_string())) {
            ReadAction::Respond(Ok(Some(found))) => assert_eq!(found.track_number, track_number),
            other => panic!("expected the order from the cache, not {:?}", other),
        }
    }
}

#[test]
fn duplicate_submission_scenario() {
    let mut state = AppState::new(10);
    let mut table = Table::new();
    let first = get_mock_order("X".to_string());
    let mut second = get_mock_order("X".to_string());
    second.entry = "OTHER".to_string();

    let response = submit(&mut state, &mut table, first.clone());
    assert_eq!(response.code, 201);
    assert_eq!(status(&response), StatusCode::CREATED);

    let response = submit(&mut state, &mut table, second);
    assert_eq!(response.code, 409);
    assert_eq!(status(&response), StatusCode::CONFLICT);
    assert_eq!(response.message, "Order already exists");

    assert_eq!(table.rows.len(), 1);
    let kept = table.rows.get("X").unwrap();
    assert_eq!(kept.entry, "WBIL");
    assert_eq!(kept.track_number, first.track_number);
}

#[test]
fn duplicate_submission_overwrites_the_cache_all_the_same() {
    let mut state = AppState::new(10);
    let mut table = Table::new();
    let first = get_mock_order("X".to_string());
    let mut second = get_mock_order("X".to_string());
    second.entry = "OTHER".to_string();

    submit(&mut state, &mut table, first);
    submit(&mut state, &mut table, second);

    let (cached, asked_store) = fetch(&mut state, &table, "X");
    assert!(!asked_store);
    assert_eq!(cached.unwrap().unwrap().entry, "OTHER");
}

#[test]
fn fetched_order_is_cached_under_its_own_identifier() {
    let mut state = AppState::new(10);
    let order = get_mock_order("X".to_string());
    assert!(matches!(
        get_order_by_uid(&mut state, ReadEvent::Request("alias".to_string())),
        ReadAction::Lookup(_)
    ));
    assert!(matches!(
        get_order_by_uid(&mut state, ReadEvent::Reply(LookupReply::Found(order))),
        ReadAction::Respond(Ok(Some(_)))
    ));
    assert!(state.get("alias").is_none());
    assert!(state.get("X").is_some());
}

#[test]
fn submissions_beyond_the_capacity_evict_the_oldest() {
    let mut state = AppState::new(2);
    let mut table = Table::new();
    for uid in ["A", "B", "C"] {
        let response = submit(&mut state, &mut table, get_mock_order(uid.to_string()));
        assert_eq!(response.code, 201);
    }
    let (_, asked_store) = fetch(&mut state, &table, "B");
    assert!(!asked_store);
    let (_, asked_store) = fetch(&mut state, &table, "C");
    assert!(!asked_store);
    let (found, asked_store) = fetch(&mut state, &table, "A");
    assert!(asked_store);
    assert_eq!(found.unwrap().unwrap().order_uid, "A");
}
