use vstd::prelude::*;

use crate::models::{
    Account, AccountTransactionEvent, ServiceError, TokenTransactionEventDb, TransactionEventDb,
};
use crate::codec::{valid_hex_body, valid_workchain_id};

verus! {

/// A stored event row of either physical shape, unified only at the read
/// boundary.
#[derive(Debug)]
pub enum EventRow {
    Token(TokenTransactionEventDb),
    Native(TransactionEventDb),
}

/// Whether the addresses a token row stores are well-formed: the account
/// pair always, and the sender pair whenever both of its parts are
/// present.
pub open spec fn token_row_addresses_valid(t: TokenTransactionEventDb) -> bool {
    valid_workchain_id(t.account_workchain_id as int) && valid_hex_body(t.account_hex@) && match (
        t.sender_workchain_id,
        t.sender_hex,
    ) {
        (Some(w), Some(h)) => valid_workchain_id(w as int) && valid_hex_body(h@),
        _ => true,
    }
}

/// Whether the addresses a native row stores are well-formed.
pub open spec fn native_row_addresses_valid(t: TransactionEventDb) -> bool {
    valid_workchain_id(t.account_workchain_id as int) && valid_hex_body(t.account_hex@) && match (
        t.sender_workchain_id,
        t.sender_hex,
    ) {
        (Some(w), Some(h)) => valid_workchain_id(w as int) && valid_hex_body(h@),
        _ => true,
    }
}

/// How a published event relates to the sender pair of the row it came
/// from: a well-formed sender account when both parts were stored,
/// nothing otherwise.
pub open spec fn sender_projected(
    sender_workchain_id: Option<i32>,
    sender_hex: Option<String>,
    sender: Option<Account>,
) -> bool {
    match (sender_workchain_id, sender_hex) {
        (Some(w), Some(h)) => sender matches Some(s) && s.workchain_id == w && s.hex.0 == h
            && s.well_formed(),
        _ => sender is None,
    }
}

/// Field-for-field content of a token row's projection. Token rows
/// always publish their value and the token contract address, and never
/// a multisig transaction id.
pub open spec fn token_projection(t: TokenTransactionEventDb, e: AccountTransactionEvent) -> bool {
    &&& e.id == t.id
    &&& e.transaction_id == t.token_transaction_id
    &&& e.transaction_hash == t.token_transaction_hash
    &&& e.message_hash == t.message_hash
    &&& e.owner_message_hash == t.owner_message_hash
    &&& e.account.workchain_id == t.account_workchain_id
    &&& e.account.hex.0 == t.account_hex
    &&& e.account.well_formed()
    &&& sender_projected(t.sender_workchain_id, t.sender_hex, e.sender)
    &&& e.balance_change matches Some(v) && v == t.value
    &&& e.root_address matches Some(a) && a == t.root_address
    &&& e.transaction_direction == t.transaction_direction
    &&& e.transaction_status == t.transaction_status
    &&& e.event_status == t.event_status
    &&& e.multisig_transaction_id is None
    &&& e.created_at == t.created_at
    &&& e.updated_at == t.updated_at
}

/// Field-for-field content of a native row's projection. Native rows
/// never publish an owner message hash or a token contract address.
pub open spec fn native_projection(t: TransactionEventDb, e: AccountTransactionEvent) -> bool {
    &&& e.id == t.id
    &&& e.transaction_id == t.transaction_id
    &&& e.transaction_hash == t.transaction_hash
    &&& e.message_hash == t.message_hash
    &&& e.owner_message_hash is None
    &&& e.account.workchain_id == t.account_workchain_id
    &&& e.account.hex.0 == t.account_hex
    &&& e.account.well_formed()
    &&& sender_projected(t.sender_workchain_id, t.sender_hex, e.sender)
    &&& e.balance_change == t.balance_change
    &&& e.root_address is None
    &&& e.transaction_direction == t.transaction_direction
    &&& e.transaction_status == t.transaction_status
    &&& e.event_status == t.event_status
    &&& e.multisig_transaction_id == t.multisig_transaction_id
    &&& e.created_at == t.created_at
    &&& e.updated_at == t.updated_at
}

impl AccountTransactionEvent {
    /// Projects a stored token row into the published shape, deriving
    /// the canonical account and sender addresses; a malformed stored
    /// address is a data-integrity failure, surfaced and never defaulted.
    pub fn from_token_event(t: TokenTransactionEventDb) -> (r: Result<
        AccountTransactionEvent,
        ServiceError,
    >)
        ensures
            (r is Ok) <==> token_row_addresses_valid(t),
            r matches Err(e) ==> e == ServiceError::AddressFormat,
            r matches Ok(e) ==> token_projection(t, e),
    {
        let TokenTransactionEventDb {
            id,
            service_id: _,
            token_transaction_id,
            token_transaction_hash,
            message_hash,
            owner_message_hash,
            account_workchain_id,
            account_hex,
            sender_workchain_id,
            sender_hex,
            value,
            root_address,
            transaction_direction,
            transaction_status,
            event_status,
            created_at,
            updated_at,
        } = t;
        let account = match Account::new(account_workchain_id, account_hex) {
            Ok(a) => a,
            Err(e) => {
                return Err(e);
            },
        };
        let sender = match (sender_workchain_id, sender_hex) {
            (Some(w), Some(h)) => {
                match Account::new(w, h) {
                    Ok(a) => Some(a),
                    Err(e) => {
                        return Err(e);
                    },
                }
            },
            _ => None,
        };
        Ok(
            AccountTransactionEvent {
                id,
                transaction_id: token_transaction_id,
                transaction_hash: token_transaction_hash,
                message_hash,
                owner_message_hash,
                account,
                sender,
                balance_change: Some(value),
                root_address: Some(root_address),
                transaction_direction,
                transaction_status,
                event_status,
                multisig_transaction_id: None,
                created_at,
                updated_at,
            },
        )
    }

    /// Projects a stored native row into the published shape; the owner
    /// message hash and the token contract address stay absent, which is
    /// a structural difference of the source, not an error.
    pub fn from_transaction_event(t: TransactionEventDb) -> (r: Result<
        AccountTransactionEvent,
        ServiceError,
    >)
        ensures
            (r is Ok) <==> native_row_addresses_valid(t),
            r matches Err(e) ==> e == ServiceError::AddressFormat,
            r matches Ok(e) ==> native_projection(t, e),
            r matches Ok(e) ==> e.owner_message_hash is None && e.root_address is None,
    {
        let TransactionEventDb {
            id,
            service_id: _,
            transaction_id,
            transaction_hash,
            message_hash,
            account_workchain_id,
            account_hex,
            sender_workchain_id,
            sender_hex,
            balance_change,
            transaction_direction,
            transaction_status,
            event_status,
            multisig_transaction_id,
            created_at,
            updated_at,
        } = t;
        let account = match Account::new(account_workchain_id, account_hex) {
            Ok(a) => a,
            Err(e) => {
                return Err(e);
            },
        };
        let sender = match (sender_workchain_id, sender_hex) {
            (Some(w), Some(h)) => {
                match Account::new(w, h) {
                    Ok(a) => Some(a),
                    Err(e) => {
                        return Err(e);
                    },
                }
            },
            _ => None,
        };
        Ok(
            AccountTransactionEvent {
                id,
                transaction_id,
                transaction_hash,
                message_hash,
                owner_message_hash: None,
                account,
                sender,
                balance_change,
                root_address: None,
                transaction_direction,
                transaction_status,
                event_status,
                multisig_transaction_id,
                created_at,
                updated_at,
            },
        )
    }

    /// Unifies the two stored shapes into the one published shape with an
    /// exhaustive match over the row kind.
    pub fn to_public(row: EventRow) -> (r: Result<AccountTransactionEvent, ServiceError>)
        ensures
            row matches EventRow::Token(t) ==> ((r is Ok) <==> token_row_addresses_valid(t)) && (
            r matches Ok(e) ==> token_projection(t, e)),
            row matches EventRow::Native(t) ==> ((r is Ok) <==> native_row_addresses_valid(t)) && (
            r matches Ok(e) ==> native_projection(t, e)),
            r matches Err(e) ==> e == ServiceError::AddressFormat,
    {
        match row {
            EventRow::Token(t) => AccountTransactionEvent::from_token_event(t),
            EventRow::Native(t) => AccountTransactionEvent::from_transaction_event(t),
        }
    }
}

} // verus!
