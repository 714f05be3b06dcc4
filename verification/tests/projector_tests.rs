use ton_events::models::{
    AccountTransactionEvent, Amount, ServiceError, ServiceId, TokenTransactionEventDb,
    TonEventStatus, TonTransactionDirection, TonTransactionStatus, TransactionEventDb,
};
use ton_events::projector::EventRow;

const HEX_BODY: &str = "de12000000000000000000000000000000000000000000000000000000000000";
const HEX_PACKED: &str = "EQDeEgAAAAAAAAAAAAAAAAAAAAAAAAAAAAAAAAAAAAAAACws";
const SENDER_BODY: &str = "3333333333333333333333333333333333333333333333333333333333333333";
const SENDER_PACKED: &str = "Ef8zMzMzMzMzMzMzMzMzMzMzMzMzMzMzMzMzMzMzMzMzM0vF";

fn token_row() -> TokenTransactionEventDb {
    TokenTransactionEventDb {
        id: 9,
        service_id: ServiceId(42),
        token_transaction_id: 77,
        token_transaction_hash: Some("cafe".to_string()),
        message_hash: "mh".to_string(),
        owner_message_hash: Some("omh".to_string()),
        account_workchain_id: 0,
        account_hex: HEX_BODY.to_string(),
        sender_workchain_id: Some(-1),
        sender_hex: Some(SENDER_BODY.to_string()),
        value: Amount("12.5".to_string()),
        root_address: "rootaddr".to_string(),
        transaction_direction: TonTransactionDirection::Receive,
        transaction_status: TonTransactionStatus::Done,
        event_status: TonEventStatus::New,
        created_at: 1111,
        updated_at: 2222,
    }
}

fn native_row() -> TransactionEventDb {
    TransactionEventDb {
        id: 10,
        service_id: ServiceId(42),
        transaction_id: 88,
        transaction_hash: Some("beef".to_string()),
        message_hash: "mh2".to_string(),
        account_workchain_id: 0,
        account_hex: HEX_BODY.to_string(),
        sender_workchain_id: None,
        sender_hex: None,
        balance_change: Some(Amount("-3".to_string())),
        transaction_direction: TonTransactionDirection::Send,
        transaction_status: TonTransactionStatus::New,
        event_status: TonEventStatus::Notified,
        multisig_transaction_id: Some(5),
        created_at: 3333,
        updated_at: 4444,
    }
}

#[test]
fn token_projection_populates_token_fields() {
    let event = AccountTransactionEvent::from_token_event(token_row()).unwrap();
    assert_eq!(event.id, 9);
    assert_eq!(event.transaction_id, 77);
    assert_eq!(event.transaction_hash.as_deref(), Some("cafe"));
    assert_eq!(event.message_hash, "mh");
    assert_eq!(event.owner_message_hash.as_deref(), Some("omh"));
    assert_eq!(event.account.workchain_id, 0);
    assert_eq!(event.account.hex.0, HEX_BODY);
    assert_eq!(event.account.base64url.0, HEX_PACKED);
    let sender = event.sender.unwrap();
    assert_eq!(sender.workchain_id, -1);
    assert_eq!(sender.hex.0, SENDER_BODY);
    assert_eq!(sender.base64url.0, SENDER_PACKED);
    assert_eq!(event.balance_change, Some(Amount("12.5".to_string())));
    assert_eq!(event.root_address.as_deref(), Some("rootaddr"));
    assert_eq!(event.transaction_direction, TonTransactionDirection::Receive);
    assert_eq!(event.transaction_status, TonTransactionStatus::Done);
    assert_eq!(event.event_status, TonEventStatus::New);
    assert_eq!(event.multisig_transaction_id, None);
    assert_eq!(event.created_at, 1111);
    assert_eq!(event.updated_at, 2222);
}

#[test]
fn native_projection_never_populates_token_fields() {
    let event = AccountTransactionEvent::from_transaction_event(native_row()).unwrap();
    assert_eq!(event.owner_message_hash, None);
    assert_eq!(event.root_address, None);
    assert_eq!(event.id, 10);
    assert_eq!(event.transaction_id, 88);
    assert_eq!(event.message_hash, "mh2");
    assert_eq!(event.account.base64url.0, HEX_PACKED);
    assert_eq!(event.sender, None);
    assert_eq!(event.balance_change, Some(Amount("-3".to_string())));
    assert_eq!(event.multisig_transaction_id, Some(5));
    assert_eq!(event.created_at, 3333);
    assert_eq!(event.updated_at, 4444);
}

#[test]
fn token_projection_always_carries_root_address() {
    let event =
        AccountTransactionEvent::to_public(EventRow::Token(token_row())).unwrap();
    assert!(event.root_address.is_some());
    assert!(event.multisig_transaction_id.is_none());
}

#[test]
fn to_public_dispatches_on_row_kind() {
    let from_native =
        AccountTransactionEvent::to_public(EventRow::Native(native_row())).unwrap();
    assert_eq!(from_native.owner_message_hash, None);
    assert_eq!(from_native.root_address, None);
    let from_token =
        AccountTransactionEvent::to_public(EventRow::Token(token_row())).unwrap();
    assert_eq!(from_token.owner_message_hash.as_deref(), Some("omh"));
}

#[test]
fn sender_absent_when_pair_is_incomplete() {
    let mut row = token_row();
    row.sender_hex = None;
    let event = AccountTransactionEvent::from_token_event(row).unwrap();
    assert_eq!(event.sender, None);
}

#[test]
fn malformed_stored_account_fails_projection() {
    let mut row = token_row();
    row.account_hex = "nothex".to_string();
    assert_eq!(
        AccountTransactionEvent::from_token_event(row),
        Err(ServiceError::AddressFormat)
    );
}

#[test]
fn malformed_stored_sender_fails_projection() {
    let mut row = native_row();
    row.sender_workchain_id = Some(300);
    row.sender_hex = Some(SENDER_BODY.to_string());
    assert_eq!(
        AccountTransactionEvent::from_transaction_event(row),
        Err(ServiceError::AddressFormat)
    );
}
