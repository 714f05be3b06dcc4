use ton_events::factory::{
    CreateReceiveTransactionEvent, CreateSendTransactionEvent, TransactionDb,
    UpdateSendTransactionEvent,
};
use ton_events::models::{
    Amount, ServiceId, TonEventStatus, TonTransactionDirection, TonTransactionStatus,
    TransactionEventDb,
};

fn sample_transaction() -> TransactionDb {
    TransactionDb {
        id: 7,
        service_id: ServiceId(42),
        message_hash: "abc123".to_string(),
        account_workchain_id: 0,
        account_hex: "de12000000000000000000000000000000000000000000000000000000000000"
            .to_string(),
        sender_workchain_id: None,
        sender_hex: None,
        balance_change: Some(Amount("-250".to_string())),
        status: TonTransactionStatus::Done,
        direction: TonTransactionDirection::Send,
    }
}

#[test]
fn send_event_defaults() {
    let event = CreateSendTransactionEvent::new(sample_transaction());
    assert_eq!(event.transaction_direction, TonTransactionDirection::Send);
    assert_eq!(event.transaction_status, TonTransactionStatus::New);
    assert_eq!(event.event_status, TonEventStatus::New);
    assert_eq!(event.service_id, ServiceId(42));
    assert_eq!(event.transaction_id, 7);
    assert_eq!(event.message_hash, "abc123");
    assert_eq!(event.account_workchain_id, 0);
}

#[test]
fn receive_event_defaults() {
    let event = CreateReceiveTransactionEvent::new(sample_transaction());
    assert_eq!(event.transaction_direction, TonTransactionDirection::Receive);
    assert_eq!(event.transaction_status, TonTransactionStatus::Done);
    assert_eq!(event.event_status, TonEventStatus::New);
    assert_eq!(event.transaction_id, 7);
    assert_eq!(event.balance_change, Some(Amount("-250".to_string())));
}

#[test]
fn update_carries_status_and_balance() {
    let update = UpdateSendTransactionEvent::new(sample_transaction());
    assert_eq!(update.transaction_status, TonTransactionStatus::Done);
    assert_eq!(update.balance_change.as_ref().map(|a| a.0.as_str()), Some("-250"));
}

fn sample_row() -> TransactionEventDb {
    TransactionEventDb {
        id: 11,
        service_id: ServiceId(42),
        transaction_id: 7,
        transaction_hash: Some("beef".to_string()),
        message_hash: "abc123".to_string(),
        account_workchain_id: 0,
        account_hex: "de12000000000000000000000000000000000000000000000000000000000000"
            .to_string(),
        sender_workchain_id: None,
        sender_hex: None,
        balance_change: None,
        transaction_direction: TonTransactionDirection::Send,
        transaction_status: TonTransactionStatus::New,
        event_status: TonEventStatus::New,
        multisig_transaction_id: None,
        created_at: 1000,
        updated_at: 1000,
    }
}

#[test]
fn apply_update_changes_only_status_and_balance() {
    let mut row = sample_row();
    let update = UpdateSendTransactionEvent::new(sample_transaction());
    row.apply_update(update);
    assert_eq!(row.transaction_status, TonTransactionStatus::Done);
    assert_eq!(row.balance_change.as_ref().map(|a| a.0.as_str()), Some("-250"));
    let original = sample_row();
    assert_eq!(row.id, original.id);
    assert_eq!(row.service_id, original.service_id);
    assert_eq!(row.transaction_id, original.transaction_id);
    assert_eq!(row.transaction_hash, original.transaction_hash);
    assert_eq!(row.message_hash, original.message_hash);
    assert_eq!(row.account_workchain_id, original.account_workchain_id);
    assert_eq!(row.account_hex, original.account_hex);
    assert_eq!(row.transaction_direction, original.transaction_direction);
    assert_eq!(row.event_status, original.event_status);
    assert_eq!(row.multisig_transaction_id, original.multisig_transaction_id);
    assert_eq!(row.created_at, original.created_at);
    assert_eq!(row.updated_at, original.updated_at);
}
