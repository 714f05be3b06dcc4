use ton_events::models::{
    Amount, ServiceError, ServiceId, TokenTransactionEventDb, TonEventStatus,
    TonTransactionDirection, TonTransactionStatus, TransactionsEventsSearch,
};
use ton_events::store::{EventStore, MAX_SEARCH_LIMIT};

const HEX_BODY: &str = "de12000000000000000000000000000000000000000000000000000000000000";

fn sample_row(id: u128, message_hash: &str, created_at: i64) -> TokenTransactionEventDb {
    TokenTransactionEventDb {
        id,
        service_id: ServiceId(42),
        token_transaction_id: 500 + id,
        token_transaction_hash: Some("cafe".to_string()),
        message_hash: message_hash.to_string(),
        owner_message_hash: Some("own".to_string()),
        account_workchain_id: 0,
        account_hex: HEX_BODY.to_string(),
        sender_workchain_id: None,
        sender_hex: None,
        value: Amount("100".to_string()),
        root_address: "root".to_string(),
        transaction_direction: TonTransactionDirection::Send,
        transaction_status: TonTransactionStatus::New,
        event_status: TonEventStatus::New,
        created_at,
        updated_at: created_at,
    }
}

fn empty_filter() -> TransactionsEventsSearch {
    TransactionsEventsSearch {
        limit: MAX_SEARCH_LIMIT,
        offset: 0,
        created_at_ge: None,
        created_at_le: None,
        transaction_id: None,
        message_hash: None,
        account_workchain_id: None,
        account_hex: None,
        transaction_direction: None,
        transaction_status: None,
        event_status: None,
    }
}

#[test]
fn find_missing_key_is_not_found() {
    let store = EventStore::new();
    let r = store.get_token_transaction_event_by_mh(
        "abc123".to_string(),
        ServiceId(42),
        0,
        HEX_BODY.to_string(),
    );
    assert_eq!(r, Err(ServiceError::NotFound));
}

#[test]
fn insert_then_find_returns_inserted_values() {
    let mut store = EventStore::new();
    store.insert_token_transaction_event(sample_row(1, "abc123", 1000)).unwrap();
    let found = store
        .get_token_transaction_event_by_mh(
            "abc123".to_string(),
            ServiceId(42),
            0,
            HEX_BODY.to_string(),
        )
        .unwrap();
    let expected = sample_row(1, "abc123", 1000);
    assert_eq!(found.id, expected.id);
    assert_eq!(found.service_id, expected.service_id);
    assert_eq!(found.token_transaction_id, expected.token_transaction_id);
    assert_eq!(found.token_transaction_hash, expected.token_transaction_hash);
    assert_eq!(found.message_hash, expected.message_hash);
    assert_eq!(found.owner_message_hash, expected.owner_message_hash);
    assert_eq!(found.account_workchain_id, expected.account_workchain_id);
    assert_eq!(found.account_hex, expected.account_hex);
    assert_eq!(found.value, expected.value);
    assert_eq!(found.root_address, expected.root_address);
    assert_eq!(found.transaction_direction, expected.transaction_direction);
    assert_eq!(found.transaction_status, expected.transaction_status);
    assert_eq!(found.event_status, expected.event_status);
    assert_eq!(found.created_at, expected.created_at);
    assert_eq!(found.updated_at, expected.updated_at);
}

#[test]
fn find_does_not_match_other_tenant() {
    let mut store = EventStore::new();
    store.insert_token_transaction_event(sample_row(1, "abc123", 1000)).unwrap();
    let r = store.get_token_transaction_event_by_mh(
        "abc123".to_string(),
        ServiceId(7),
        0,
        HEX_BODY.to_string(),
    );
    assert_eq!(r, Err(ServiceError::NotFound));
}

#[test]
fn duplicate_id_insert_is_conflict() {
    let mut store = EventStore::new();
    store.insert_token_transaction_event(sample_row(1, "abc123", 1000)).unwrap();
    let r = store.insert_token_transaction_event(sample_row(1, "other", 2000));
    assert_eq!(r, Err(ServiceError::Conflict));
    let listed = store.get_token_transaction_events(ServiceId(42), TonEventStatus::New);
    assert_eq!(listed.len(), 1);
}

#[test]
fn update_unknown_key_is_not_found_and_writes_nothing() {
    let mut store = EventStore::new();
    store.insert_token_transaction_event(sample_row(1, "abc123", 1000)).unwrap();
    let r = store.update_event_status_of_token_transaction_event(
        "missing".to_string(),
        0,
        HEX_BODY.to_string(),
        TonEventStatus::Notified,
    );
    assert_eq!(r, Err(ServiceError::NotFound));
    let listed = store.get_token_transaction_events(ServiceId(42), TonEventStatus::New);
    assert_eq!(listed.len(), 1);
    assert_eq!(listed[0].event_status, TonEventStatus::New);
}

#[test]
fn update_transitions_status_and_keeps_other_fields() {
    let mut store = EventStore::new();
    store.insert_token_transaction_event(sample_row(1, "abc123", 1000)).unwrap();
    let updated = store
        .update_event_status_of_token_transaction_event(
            "abc123".to_string(),
            0,
            HEX_BODY.to_string(),
            TonEventStatus::Notified,
        )
        .unwrap();
    assert_eq!(updated.event_status, TonEventStatus::Notified);
    let expected = sample_row(1, "abc123", 1000);
    assert_eq!(updated.id, expected.id);
    assert_eq!(updated.service_id, expected.service_id);
    assert_eq!(updated.token_transaction_id, expected.token_transaction_id);
    assert_eq!(updated.message_hash, expected.message_hash);
    assert_eq!(updated.account_workchain_id, expected.account_workchain_id);
    assert_eq!(updated.account_hex, expected.account_hex);
    assert_eq!(updated.value, expected.value);
    assert_eq!(updated.root_address, expected.root_address);
    assert_eq!(updated.transaction_direction, expected.transaction_direction);
    assert_eq!(updated.transaction_status, expected.transaction_status);
    assert_eq!(updated.created_at, expected.created_at);
    assert_eq!(updated.updated_at, expected.updated_at);
    let found = store
        .get_token_transaction_event_by_mh(
            "abc123".to_string(),
            ServiceId(42),
            0,
            HEX_BODY.to_string(),
        )
        .unwrap();
    assert_eq!(found.event_status, TonEventStatus::Notified);
}

#[test]
fn list_by_status_filters_by_tenant_and_status() {
    let mut store = EventStore::new();
    store.insert_token_transaction_event(sample_row(1, "a", 1000)).unwrap();
    store.insert_token_transaction_event(sample_row(2, "b", 2000)).unwrap();
    let mut other = sample_row(3, "c", 3000);
    other.event_status = TonEventStatus::Notified;
    store.insert_token_transaction_event(other).unwrap();
    let mut foreign = sample_row(4, "d", 4000);
    foreign.service_id = ServiceId(7);
    store.insert_token_transaction_event(foreign).unwrap();
    let listed = store.get_token_transaction_events(ServiceId(42), TonEventStatus::New);
    assert_eq!(listed.len(), 2);
    assert!(listed.iter().all(|row| row.event_status == TonEventStatus::New));
    assert!(listed.iter().all(|row| row.service_id == ServiceId(42)));
    let notified = store.get_token_transaction_events(ServiceId(42), TonEventStatus::Notified);
    assert_eq!(notified.len(), 1);
    assert_eq!(notified[0].id, 3);
}

#[test]
fn search_with_zero_limit_is_an_empty_page() {
    let mut store = EventStore::new();
    store.insert_token_transaction_event(sample_row(1, "a", 1000)).unwrap();
    let mut filter = empty_filter();
    filter.limit = 0;
    let page = store.search_token_transaction_events(&filter).unwrap();
    assert!(page.is_empty());
}

#[test]
fn search_rejects_limit_above_cap() {
    let store = EventStore::new();
    let mut filter = empty_filter();
    filter.limit = MAX_SEARCH_LIMIT + 1;
    assert_eq!(store.search_token_transaction_events(&filter), Err(ServiceError::InvalidFilter));
}

#[test]
fn search_rejects_negative_bounds() {
    let store = EventStore::new();
    let mut filter = empty_filter();
    filter.limit = -1;
    assert_eq!(store.search_token_transaction_events(&filter), Err(ServiceError::InvalidFilter));
    let mut filter = empty_filter();
    filter.offset = -5;
    assert_eq!(store.search_token_transaction_events(&filter), Err(ServiceError::InvalidFilter));
}

#[test]
fn search_orders_by_creation_time_and_pages() {
    let mut store = EventStore::new();
    store.insert_token_transaction_event(sample_row(1, "a", 3000)).unwrap();
    store.insert_token_transaction_event(sample_row(2, "b", 1000)).unwrap();
    store.insert_token_transaction_event(sample_row(3, "c", 2000)).unwrap();
    let page = store.search_token_transaction_events(&empty_filter()).unwrap();
    let times: Vec<i64> = page.iter().map(|row| row.created_at).collect();
    assert_eq!(times, vec![1000, 2000, 3000]);
    let mut filter = empty_filter();
    filter.offset = 1;
    filter.limit = 1;
    let page = store.search_token_transaction_events(&filter).unwrap();
    assert_eq!(page.len(), 1);
    assert_eq!(page[0].created_at, 2000);
    let mut filter = empty_filter();
    filter.offset = 10;
    let page = store.search_token_transaction_events(&filter).unwrap();
    assert!(page.is_empty());
}

#[test]
fn search_predicates_are_combined_with_and() {
    let mut store = EventStore::new();
    store.insert_token_transaction_event(sample_row(1, "a", 1000)).unwrap();
    let mut done = sample_row(2, "b", 2000);
    done.transaction_status = TonTransactionStatus::Done;
    store.insert_token_transaction_event(done).unwrap();
    store.insert_token_transaction_event(sample_row(3, "c", 3000)).unwrap();

    let mut filter = empty_filter();
    filter.created_at_ge = Some(1500);
    filter.transaction_status = Some(TonTransactionStatus::New);
    let page = store.search_token_transaction_events(&filter).unwrap();
    assert_eq!(page.len(), 1);
    assert_eq!(page[0].id, 3);

    let mut filter = empty_filter();
    filter.message_hash = Some("b".to_string());
    let page = store.search_token_transaction_events(&filter).unwrap();
    assert_eq!(page.len(), 1);
    assert_eq!(page[0].id, 2);

    let mut filter = empty_filter();
    filter.transaction_id = Some(503);
    let page = store.search_token_transaction_events(&filter).unwrap();
    assert_eq!(page.len(), 1);
    assert_eq!(page[0].id, 3);
}
