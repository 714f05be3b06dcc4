use vstd::prelude::*;

use crate::models::{
    Amount, ServiceId, TonEventStatus, TonTransactionDirection, TonTransactionStatus,
    TransactionEventDb,
};

verus! {

/// A transaction record as the transaction source supplies it. The
/// library only reads these records, never writes them back.
#[derive(Debug)]
pub struct TransactionDb {
    pub id: u128,
    pub service_id: ServiceId,
    pub message_hash: String,
    pub account_workchain_id: i32,
    pub account_hex: String,
    pub sender_workchain_id: Option<i32>,
    pub sender_hex: Option<String>,
    pub balance_change: Option<Amount>,
    pub status: TonTransactionStatus,
    pub direction: TonTransactionDirection,
}

/// Relies on uuid::Uuid::new_v4, which draws a fresh random identifier;
/// nothing is promised of the value drawn.
#[verifier::external_body]
fn fresh_event_id() -> u128 {
    uuid::Uuid::new_v4().as_u128()
}

/// The row inserted when a send transaction is first observed.
#[derive(Debug)]
pub struct CreateSendTransactionEvent {
    pub id: u128,
    pub service_id: ServiceId,
    pub transaction_id: u128,
    pub message_hash: String,
    pub account_workchain_id: i32,
    pub account_hex: String,
    pub transaction_direction: TonTransactionDirection,
    pub transaction_status: TonTransactionStatus,
    pub event_status: TonEventStatus,
}

impl CreateSendTransactionEvent {
    /// A send event starts awaiting confirmation: its transaction status
    /// is New, its event status is New, and its direction is Send. The
    /// identifying fields are taken from the observed transaction and the
    /// event id is freshly generated.
    pub fn new(payload: TransactionDb) -> (r: Self)
        ensures
            r.transaction_direction == TonTransactionDirection::Send,
            r.transaction_status == TonTransactionStatus::New,
            r.event_status == TonEventStatus::New,
            r.service_id == payload.service_id,
            r.transaction_id == payload.id,
            r.message_hash == payload.message_hash,
            r.account_workchain_id == payload.account_workchain_id,
            r.account_hex == payload.account_hex,
    {
        Self {
            id: fresh_event_id(),
            service_id: payload.service_id,
            transaction_id: payload.id,
            message_hash: payload.message_hash,
            account_workchain_id: payload.account_workchain_id,
            account_hex: payload.account_hex,
            transaction_direction: TonTransactionDirection::Send,
            transaction_status: TonTransactionStatus::New,
            event_status: TonEventStatus::New,
        }
    }
}

/// The partial update produced when the owning transaction is
/// re-observed: only the transaction status and the balance change move.
#[derive(Debug)]
pub struct UpdateSendTransactionEvent {
    pub balance_change: Option<Amount>,
    pub transaction_status: TonTransactionStatus,
}

impl UpdateSendTransactionEvent {
    /// Carries over exactly the re-observed status and balance delta.
    pub fn new(payload: TransactionDb) -> (r: Self)
        ensures
            r.transaction_status == payload.status,
            r.balance_change == payload.balance_change,
    {
        Self { transaction_status: payload.status, balance_change: payload.balance_change }
    }
}

/// The row inserted when a receive transaction is observed.
#[derive(Debug)]
pub struct CreateReceiveTransactionEvent {
    pub id: u128,
    pub service_id: ServiceId,
    pub transaction_id: u128,
    pub message_hash: String,
    pub account_workchain_id: i32,
    pub account_hex: String,
    pub balance_change: Option<Amount>,
    pub transaction_direction: TonTransactionDirection,
    pub transaction_status: TonTransactionStatus,
    pub event_status: TonEventStatus,
}

impl CreateReceiveTransactionEvent {
    /// A receive event is already final on observation: its transaction
    /// status is Done, its event status is New, and its direction is
    /// Receive. The balance delta is the observed one, absent if not yet
    /// known.
    pub fn new(payload: TransactionDb) -> (r: Self)
        ensures
            r.transaction_direction == TonTransactionDirection::Receive,
            r.transaction_status == TonTransactionStatus::Done,
            r.event_status == TonEventStatus::New,
            r.service_id == payload.service_id,
            r.transaction_id == payload.id,
            r.message_hash == payload.message_hash,
            r.account_workchain_id == payload.account_workchain_id,
            r.account_hex == payload.account_hex,
            r.balance_change == payload.balance_change,
    {
        Self {
            id: fresh_event_id(),
            service_id: payload.service_id,
            transaction_id: payload.id,
            message_hash: payload.message_hash,
            account_workchain_id: payload.account_workchain_id,
            account_hex: payload.account_hex,
            balance_change: payload.balance_change,
            transaction_direction: TonTransactionDirection::Receive,
            transaction_status: TonTransactionStatus::Done,
            event_status: TonEventStatus::New,
        }
    }
}

impl TransactionEventDb {
    /// Applies a partial update produced from a re-observed transaction:
    /// only the transaction status and the balance change move, and the
    /// identity, account, direction and timestamps stay untouched.
    pub fn apply_update(&mut self, update: UpdateSendTransactionEvent)
        ensures
            final(self).transaction_status == update.transaction_status,
            final(self).balance_change == update.balance_change,
            final(self).id == old(self).id,
            final(self).service_id == old(self).service_id,
            final(self).transaction_id == old(self).transaction_id,
            final(self).transaction_hash == old(self).transaction_hash,
            final(self).message_hash == old(self).message_hash,
            final(self).account_workchain_id == old(self).account_workchain_id,
            final(self).account_hex == old(self).account_hex,
            final(self).sender_workchain_id == old(self).sender_workchain_id,
            final(self).sender_hex == old(self).sender_hex,
            final(self).transaction_direction == old(self).transaction_direction,
            final(self).event_status == old(self).event_status,
            final(self).multisig_transaction_id == old(self).multisig_transaction_id,
            final(self).created_at == old(self).created_at,
            final(self).updated_at == old(self).updated_at,
    {
        self.transaction_status = update.transaction_status;
        self.balance_change = update.balance_change;
    }
}

} // verus!
