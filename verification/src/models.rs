use vstd::prelude::*;

use crate::codec::{packed_addr, valid_hex_body, valid_workchain_id};

verus! {

/// The failures this library reports: malformed address data, a missed
/// lookup, an identity collision on insert, and a rejected search filter.
#[derive(Clone, Copy, Debug, PartialEq, Eq, Structural)]
pub enum ServiceError {
    /// A stored address body or workchain identifier is malformed.
    AddressFormat,
    /// A lookup or update targeted a key absent from the store.
    NotFound,
    /// An insert collided with an already-stored event identity.
    Conflict,
    /// A search filter carried a negative or oversized limit or offset.
    InvalidFilter,
}

/// Whether the underlying transaction sent funds out of the tracked
/// account or brought funds into it. Fixed when the event is created.
#[derive(Clone, Copy, Debug, PartialEq, Eq, Structural)]
pub enum TonTransactionDirection {
    Send,
    Receive,
}

/// Confirmation state of the underlying transaction.
#[derive(Clone, Copy, Debug, PartialEq, Eq, Structural)]
pub enum TonTransactionStatus {
    New,
    Done,
    Error,
}

/// Delivery state of the event itself, independent of the transaction.
#[derive(Clone, Copy, Debug, PartialEq, Eq, Structural)]
pub enum TonEventStatus {
    New,
    Notified,
    Error,
}

/// Tenant partition under which events are isolated.
#[derive(Clone, Copy, Debug, PartialEq, Eq, Structural)]
pub struct ServiceId(pub u128);

/// A textual address form: either a raw hex body or a packed canonical
/// representation.
#[derive(Debug, PartialEq, Eq)]
pub struct Address(pub String);

impl Clone for Address {
    fn clone(&self) -> (r: Self)
        ensures
            r == *self,
    {
        Address(self.0.clone())
    }
}

/// A signed decimal amount, carried in its plain decimal rendering. The
/// library moves amounts around; it never computes with them.
#[derive(Debug, PartialEq, Eq)]
pub struct Amount(pub String);

impl Clone for Amount {
    fn clone(&self) -> (r: Self)
        ensures
            r == *self,
    {
        Amount(self.0.clone())
    }
}

/// The canonical multi-representation account entity: the raw
/// (workchain, hex body) pair is the source of truth, and the packed
/// textual form is derived from it.
#[derive(Debug, PartialEq, Eq)]
pub struct Account {
    pub workchain_id: i32,
    pub hex: Address,
    pub base64url: Address,
}

impl Account {
    /// The derived field is always recomputable from the raw pair.
    pub open spec fn well_formed(self) -> bool {
        valid_workchain_id(self.workchain_id as int) && valid_hex_body(self.hex.0@)
            && self.base64url.0@ == packed_addr(self.workchain_id as int, self.hex.0@)
    }

    /// Builds a well-formed account from a raw (workchain, hex body)
    /// pair, deriving the canonical packed form; rejects malformed input.
    pub fn new(workchain_id: i32, hex: String) -> (r: Result<Account, ServiceError>)
        ensures
            (r is Ok) <==> (valid_workchain_id(workchain_id as int) && valid_hex_body(hex@)),
            r matches Ok(a) ==> a.well_formed() && a.workchain_id == workchain_id && a.hex.0 == hex,
            r matches Err(e) ==> e == ServiceError::AddressFormat,
    {
        match crate::codec::pack(workchain_id, hex.as_str()) {
            Ok(packed) => Ok(
                Account { workchain_id, hex: Address(hex), base64url: Address(packed) },
            ),
            Err(e) => Err(e),
        }
    }
}

impl Clone for Account {
    fn clone(&self) -> (r: Self)
        ensures
            r == *self,
    {
        Account {
            workchain_id: self.workchain_id,
            hex: self.hex.clone(),
            base64url: self.base64url.clone(),
        }
    }
}

/// Clones an optional string, keeping the value exactly.
pub fn clone_opt_string(o: &Option<String>) -> (r: Option<String>)
    ensures
        r == *o,
{
    match o {
        Some(s) => Some(s.clone()),
        None => None,
    }
}

/// Clones an optional amount, keeping the value exactly.
pub fn clone_opt_amount(o: &Option<Amount>) -> (r: Option<Amount>)
    ensures
        r == *o,
{
    match o {
        Some(a) => Some(a.clone()),
        None => None,
    }
}

/// A stored token-transfer event row. Token rows always carry a value and
/// the address of the token contract.
#[derive(Debug, PartialEq, Eq)]
pub struct TokenTransactionEventDb {
    pub id: u128,
    pub service_id: ServiceId,
    pub token_transaction_id: u128,
    pub token_transaction_hash: Option<String>,
    pub message_hash: String,
    pub owner_message_hash: Option<String>,
    pub account_workchain_id: i32,
    pub account_hex: String,
    pub sender_workchain_id: Option<i32>,
    pub sender_hex: Option<String>,
    pub value: Amount,
    pub root_address: String,
    pub transaction_direction: TonTransactionDirection,
    pub transaction_status: TonTransactionStatus,
    pub event_status: TonEventStatus,
    pub created_at: i64,
    pub updated_at: i64,
}

impl Clone for TokenTransactionEventDb {
    fn clone(&self) -> (r: Self)
        ensures
            r == *self,
    {
        TokenTransactionEventDb {
            id: self.id,
            service_id: self.service_id,
            token_transaction_id: self.token_transaction_id,
            token_transaction_hash: clone_opt_string(&self.token_transaction_hash),
            message_hash: self.message_hash.clone(),
            owner_message_hash: clone_opt_string(&self.owner_message_hash),
            account_workchain_id: self.account_workchain_id,
            account_hex: self.account_hex.clone(),
            sender_workchain_id: self.sender_workchain_id,
            sender_hex: clone_opt_string(&self.sender_hex),
            value: self.value.clone(),
            root_address: self.root_address.clone(),
            transaction_direction: self.transaction_direction,
            transaction_status: self.transaction_status,
            event_status: self.event_status,
            created_at: self.created_at,
            updated_at: self.updated_at,
        }
    }
}

/// A stored native-coin event row. Native rows may carry a multisig
/// transaction id and have no token contract address.
#[derive(Debug, PartialEq, Eq)]
pub struct TransactionEventDb {
    pub id: u128,
    pub service_id: ServiceId,
    pub transaction_id: u128,
    pub transaction_hash: Option<String>,
    pub message_hash: String,
    pub account_workchain_id: i32,
    pub account_hex: String,
    pub sender_workchain_id: Option<i32>,
    pub sender_hex: Option<String>,
    pub balance_change: Option<Amount>,
    pub transaction_direction: TonTransactionDirection,
    pub transaction_status: TonTransactionStatus,
    pub event_status: TonEventStatus,
    pub multisig_transaction_id: Option<i64>,
    pub created_at: i64,
    pub updated_at: i64,
}

impl Clone for TransactionEventDb {
    fn clone(&self) -> (r: Self)
        ensures
            r == *self,
    {
        TransactionEventDb {
            id: self.id,
            service_id: self.service_id,
            transaction_id: self.transaction_id,
            transaction_hash: clone_opt_string(&self.transaction_hash),
            message_hash: self.message_hash.clone(),
            account_workchain_id: self.account_workchain_id,
            account_hex: self.account_hex.clone(),
            sender_workchain_id: self.sender_workchain_id,
            sender_hex: clone_opt_string(&self.sender_hex),
            balance_change: clone_opt_amount(&self.balance_change),
            transaction_direction: self.transaction_direction,
            transaction_status: self.transaction_status,
            event_status: self.event_status,
            multisig_transaction_id: self.multisig_transaction_id,
            created_at: self.created_at,
            updated_at: self.updated_at,
        }
    }
}

/// The single externally published event representation, unifying the two
/// stored row shapes. Timestamps are integer milliseconds since epoch.
#[derive(Debug, PartialEq, Eq)]
pub struct AccountTransactionEvent {
    pub id: u128,
    pub transaction_id: u128,
    pub transaction_hash: Option<String>,
    pub message_hash: String,
    pub owner_message_hash: Option<String>,
    pub account: Account,
    pub sender: Option<Account>,
    pub balance_change: Option<Amount>,
    pub root_address: Option<String>,
    pub transaction_direction: TonTransactionDirection,
    pub transaction_status: TonTransactionStatus,
    pub event_status: TonEventStatus,
    pub multisig_transaction_id: Option<i64>,
    pub created_at: i64,
    pub updated_at: i64,
}

/// A read-only query descriptor: a page bound plus optional predicates,
/// combined with AND semantics.
#[derive(Debug)]
pub struct TransactionsEventsSearch {
    pub limit: i64,
    pub offset: i64,
    pub created_at_ge: Option<i64>,
    pub created_at_le: Option<i64>,
    pub transaction_id: Option<u128>,
    pub message_hash: Option<String>,
    pub account_workchain_id: Option<i32>,
    pub account_hex: Option<String>,
    pub transaction_direction: Option<TonTransactionDirection>,
    pub transaction_status: Option<TonTransactionStatus>,
    pub event_status: Option<TonEventStatus>,
}

} // verus!
