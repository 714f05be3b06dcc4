use vstd::multiset::Multiset;
use vstd::prelude::*;

use crate::models::{
    ServiceError, ServiceId, TokenTransactionEventDb, TonEventStatus, TransactionsEventsSearch,
};

verus! {

broadcast use vstd::seq_lib::group_to_multiset_ensures;

/// Largest page size a search filter may request.
pub const MAX_SEARCH_LIMIT: i64 = 100;

/// Index of the first element satisfying the predicate, if any.
pub open spec fn first_match_idx<T>(rows: Seq<T>, pred: spec_fn(T) -> bool) -> Option<int>
    decreases rows.len(),
{
    if rows.len() == 0 {
        None
    } else if pred(rows[0]) {
        Some(0int)
    } else {
        match first_match_idx(rows.drop_first(), pred) {
            Some(i) => Some(i + 1),
            None => None,
        }
    }
}

/// What `first_match_idx` returns: the index of a match that no earlier
/// index precedes, or nothing when no element matches.
pub proof fn lemma_first_match_idx_characterization<T>(rows: Seq<T>, pred: spec_fn(T) -> bool)
    ensures
        match first_match_idx(rows, pred) {
            Some(i) => 0 <= i < rows.len() && pred(rows[i]) && (forall|j: int|
                0 <= j < i ==> !pred(#[trigger] rows[j])),
            None => forall|j: int| 0 <= j < rows.len() ==> !pred(#[trigger] rows[j]),
        },
    decreases rows.len(),
{
    if rows.len() > 0 && !pred(rows[0]) {
        lemma_first_match_idx_characterization(rows.drop_first(), pred);
        assert(forall|j: int|
            1 <= j < rows.len() ==> rows.drop_first()[j - 1] == #[trigger] rows[j]);
    }
}

/// A match at `i` with no earlier match pins `first_match_idx` down.
pub proof fn lemma_first_match_idx_at<T>(rows: Seq<T>, pred: spec_fn(T) -> bool, i: int)
    requires
        0 <= i < rows.len(),
        pred(rows[i]),
        forall|j: int| 0 <= j < i ==> !pred(#[trigger] rows[j]),
    ensures
        first_match_idx(rows, pred) == Some(i),
{
    lemma_first_match_idx_characterization(rows, pred);
}

/// No match anywhere means `first_match_idx` finds nothing.
pub proof fn lemma_first_match_idx_none<T>(rows: Seq<T>, pred: spec_fn(T) -> bool)
    requires
        forall|j: int| 0 <= j < rows.len() ==> !pred(#[trigger] rows[j]),
    ensures
        first_match_idx(rows, pred) == None::<int>,
{
    lemma_first_match_idx_characterization(rows, pred);
}

/// The natural lookup key: tenant scope, message hash and the raw
/// account pair. The canonical packed address takes no part in lookups.
pub open spec fn token_key_pred(
    service_id: ServiceId,
    message_hash: Seq<char>,
    account_workchain_id: i32,
    account_hex: Seq<char>,
) -> spec_fn(TokenTransactionEventDb) -> bool {
    |row: TokenTransactionEventDb|
        row.service_id == service_id && row.message_hash@ == message_hash
            && row.account_workchain_id == account_workchain_id && row.account_hex@ == account_hex
}

/// The update key: message hash and the raw account pair, with no tenant
/// scope.
pub open spec fn update_key_pred(
    message_hash: Seq<char>,
    account_workchain_id: i32,
    account_hex: Seq<char>,
) -> spec_fn(TokenTransactionEventDb) -> bool {
    |row: TokenTransactionEventDb|
        row.message_hash@ == message_hash && row.account_workchain_id == account_workchain_id
            && row.account_hex@ == account_hex
}

/// The polling key: tenant scope and event status.
pub open spec fn status_pred(service_id: ServiceId, event_status: TonEventStatus) -> spec_fn(
    TokenTransactionEventDb,
) -> bool {
    |row: TokenTransactionEventDb| row.service_id == service_id && row.event_status == event_status
}

/// The row with its event status replaced and every other field kept.
pub open spec fn with_event_status(row: TokenTransactionEventDb, st: TonEventStatus)
    -> TokenTransactionEventDb {
    TokenTransactionEventDb { event_status: st, ..row }
}

/// What an exact lookup by natural key returns on a row sequence.
pub open spec fn lookup_by_message_hash(
    rows: Seq<TokenTransactionEventDb>,
    service_id: ServiceId,
    message_hash: Seq<char>,
    account_workchain_id: i32,
    account_hex: Seq<char>,
) -> Result<TokenTransactionEventDb, ServiceError> {
    match first_match_idx(
        rows,
        token_key_pred(service_id, message_hash, account_workchain_id, account_hex),
    ) {
        Some(i) => Ok(rows[i]),
        None => Err(ServiceError::NotFound),
    }
}

/// The row sequence after a status update: only the first row matching
/// the update key changes, and only its event status.
pub open spec fn rows_after_update(
    rows: Seq<TokenTransactionEventDb>,
    message_hash: Seq<char>,
    account_workchain_id: i32,
    account_hex: Seq<char>,
    st: TonEventStatus,
) -> Seq<TokenTransactionEventDb> {
    match first_match_idx(
        rows,
        update_key_pred(message_hash, account_workchain_id, account_hex),
    ) {
        Some(i) => rows.update(i, with_event_status(rows[i], st)),
        None => rows,
    }
}

/// What a status update returns: the updated row, or a definitive miss.
pub open spec fn update_result(
    rows: Seq<TokenTransactionEventDb>,
    message_hash: Seq<char>,
    account_workchain_id: i32,
    account_hex: Seq<char>,
    st: TonEventStatus,
) -> Result<TokenTransactionEventDb, ServiceError> {
    match first_match_idx(
        rows,
        update_key_pred(message_hash, account_workchain_id, account_hex),
    ) {
        Some(i) => Ok(with_event_status(rows[i], st)),
        None => Err(ServiceError::NotFound),
    }
}

/// Whether some stored row already carries this event identity.
pub open spec fn has_event_id(rows: Seq<TokenTransactionEventDb>, id: u128) -> bool {
    exists|i: int| 0 <= i < rows.len() && rows[i].id == id
}

/// All optional predicates of a search filter, combined with AND
/// semantics.
pub open spec fn search_pred(f: TransactionsEventsSearch) -> spec_fn(
    TokenTransactionEventDb,
) -> bool {
    |row: TokenTransactionEventDb|
        (f.created_at_ge matches Some(t) ==> row.created_at >= t) && (f.created_at_le matches Some(
            t,
        ) ==> row.created_at <= t) && (f.transaction_id matches Some(id)
            ==> row.token_transaction_id == id) && (f.message_hash matches Some(h)
            ==> row.message_hash@ == h@) && (f.account_workchain_id matches Some(w)
            ==> row.account_workchain_id == w) && (f.account_hex matches Some(h)
            ==> row.account_hex@ == h@) && (f.transaction_direction matches Some(d)
            ==> row.transaction_direction == d) && (f.transaction_status matches Some(s)
            ==> row.transaction_status == s) && (f.event_status matches Some(s)
            ==> row.event_status == s)
}

/// A page bound is valid when neither limit nor offset is negative and
/// the limit does not exceed the cap.
pub open spec fn valid_search_filter(f: TransactionsEventsSearch) -> bool {
    0 <= f.limit <= MAX_SEARCH_LIMIT && 0 <= f.offset
}

/// Rows ordered by creation time, earliest first.
pub open spec fn sorted_by_created_at(s: Seq<TokenTransactionEventDb>) -> bool {
    forall|i: int, j: int| 0 <= i < j < s.len() ==> #[trigger] s[i].created_at <= #[trigger] s[j].created_at
}

/// The page a sorted sequence yields for an offset and a limit, both
/// clamped to the sequence's end.
pub open spec fn page_of<T>(s: Seq<T>, offset: int, limit: int) -> Seq<T>
    recommends
        0 <= offset,
        0 <= limit,
{
    let start = if offset <= s.len() {
        offset
    } else {
        s.len() as int
    };
    let end = if offset + limit <= s.len() {
        offset + limit
    } else {
        s.len() as int
    };
    if start <= end {
        s.subrange(start, end)
    } else {
        Seq::empty()
    }
}

/// The event store's query and update contract, modelled over an ordered
/// collection of token event rows. All serialization needed for
/// correctness of a single-row update is delegated to the single place
/// the rows live.
pub struct EventStore {
    rows: Vec<TokenTransactionEventDb>,
}

impl EventStore {
    /// The stored rows, in insertion order.
    pub closed spec fn rows_seq(self) -> Seq<TokenTransactionEventDb> {
        self.rows@
    }

    /// An empty store.
    pub fn new() -> (r: EventStore)
        ensures
            r.rows_seq() == Seq::<TokenTransactionEventDb>::empty(),
    {
        EventStore { rows: Vec::new() }
    }

    /// Appends a new event row; an already-stored row with the same
    /// identity is a conflict and nothing is written.
    pub fn insert_token_transaction_event(&mut self, row: TokenTransactionEventDb) -> (r: Result<
        (),
        ServiceError,
    >)
        ensures
            has_event_id(old(self).rows_seq(), row.id) ==> r == Err::<(), ServiceError>(
                ServiceError::Conflict,
            ) && final(self).rows_seq() == old(self).rows_seq(),
            !has_event_id(old(self).rows_seq(), row.id) ==> r == Ok::<(), ServiceError>(())
                && final(self).rows_seq() == old(self).rows_seq().push(row),
    {
        let mut i: usize = 0;
        while i < self.rows.len()
            invariant
                0 <= i <= self.rows@.len(),
                self == old(self),
                forall|j: int| 0 <= j < i ==> self.rows@[j].id != row.id,
            decreases self.rows@.len() - i,
        {
            if self.rows[i].id == row.id {
                return Err(ServiceError::Conflict);
            }
            i = i + 1;
        }
        self.rows.push(row);
        Ok(())
    }

    /// Exact lookup by the natural key: the tenant scope, the message
    /// hash and the raw account pair. Zero matching rows is a definitive
    /// miss.
    pub fn get_token_transaction_event_by_mh(
        &self,
        message_hash: String,
        service_id: ServiceId,
        account_workchain_id: i32,
        account_hex: String,
    ) -> (r: Result<TokenTransactionEventDb, ServiceError>)
        ensures
            r == lookup_by_message_hash(
                self.rows_seq(),
                service_id,
                message_hash@,
                account_workchain_id,
                account_hex@,
            ),
    {
        let ghost pred = token_key_pred(
            service_id,
            message_hash@,
            account_workchain_id,
            account_hex@,
        );
        let mut i: usize = 0;
        while i < self.rows.len()
            invariant
                0 <= i <= self.rows@.len(),
                pred == token_key_pred(
                    service_id,
                    message_hash@,
                    account_workchain_id,
                    account_hex@,
                ),
                forall|j: int| 0 <= j < i ==> !pred(#[trigger] self.rows@[j]),
            decreases self.rows@.len() - i,
        {
            let row = &self.rows[i];
            if row.service_id == service_id && row.message_hash == message_hash
                && row.account_workchain_id == account_workchain_id && row.account_hex
                == account_hex {
                proof {
                    lemma_first_match_idx_at(self.rows@, pred, i as int);
                }
                return Ok(self.rows[i].clone());
            }
            i = i + 1;
        }
        proof {
            lemma_first_match_idx_none(self.rows@, pred);
        }
        Err(ServiceError::NotFound)
    }

    /// Transitions the event status of the single row matched by the
    /// update key and returns the updated row; an unknown key is a
    /// definitive miss and nothing is written.
    pub fn update_event_status_of_token_transaction_event(
        &mut self,
        message_hash: String,
        account_workchain_id: i32,
        account_hex: String,
        event_status: TonEventStatus,
    ) -> (r: Result<TokenTransactionEventDb, ServiceError>)
        ensures
            final(self).rows_seq() == rows_after_update(
                old(self).rows_seq(),
                message_hash@,
                account_workchain_id,
                account_hex@,
                event_status,
            ),
            r == update_result(
                old(self).rows_seq(),
                message_hash@,
                account_workchain_id,
                account_hex@,
                event_status,
            ),
    {
        let ghost pred = update_key_pred(message_hash@, account_workchain_id, account_hex@);
        let mut i: usize = 0;
        while i < self.rows.len()
            invariant
                0 <= i <= self.rows@.len(),
                self == old(self),
                pred == update_key_pred(message_hash@, account_workchain_id, account_hex@),
                forall|j: int| 0 <= j < i ==> !pred(#[trigger] self.rows@[j]),
            decreases self.rows@.len() - i,
        {
            let row = &self.rows[i];
            if row.message_hash == message_hash && row.account_workchain_id
                == account_workchain_id && row.account_hex == account_hex {
                proof {
                    lemma_first_match_idx_at(self.rows@, pred, i as int);
                }
                let mut updated = self.rows[i].clone();
                updated.event_status = event_status;
                self.rows.set(i, updated.clone());
                proof {
                    assert(updated == with_event_status(old(self).rows_seq()[i as int], event_status));
                }
                return Ok(updated);
            }
            i = i + 1;
        }
        proof {
            lemma_first_match_idx_none(self.rows@, pred);
        }
        Err(ServiceError::NotFound)
    }

    /// All events of a tenant in a given event status, for the polling
    /// consumer; the order is the stored one and callers must not rely on
    /// it.
    pub fn get_token_transaction_events(
        &self,
        service_id: ServiceId,
        event_status: TonEventStatus,
    ) -> (r: Vec<TokenTransactionEventDb>)
        ensures
            r@ == self.rows_seq().filter(status_pred(service_id, event_status)),
    {
        let ghost pred = status_pred(service_id, event_status);
        let mut out: Vec<TokenTransactionEventDb> = Vec::new();
        let mut i: usize = 0;
        while i < self.rows.len()
            invariant
                0 <= i <= self.rows@.len(),
                pred == status_pred(service_id, event_status),
                out@ == self.rows@.subrange(0, i as int).filter(pred),
            decreases self.rows@.len() - i,
        {
            proof {
                lemma_filter_step(self.rows@, pred, i as int);
            }
            let row = &self.rows[i];
            if row.service_id == service_id && row.event_status == event_status {
                out.push(self.rows[i].clone());
            }
            i = i + 1;
        }
        proof {
            assert(self.rows@.subrange(0, self.rows@.len() as int) =~= self.rows@);
        }
        out
    }

    /// A filtered, creation-time-ordered page of events. A negative
    /// limit or offset, or a limit above the cap, is rejected outright.
    /// Rows with equal creation times may come in either order, as a
    /// snapshot of a backing store would return them.
    pub fn search_token_transaction_events(&self, filter: &TransactionsEventsSearch) -> (r: Result<
        Vec<TokenTransactionEventDb>,
        ServiceError,
    >)
        ensures
            (r is Ok) <==> valid_search_filter(*filter),
            r matches Err(e) ==> e == ServiceError::InvalidFilter,
            r matches Ok(page) ==> exists|s: Seq<TokenTransactionEventDb>|
                sorted_by_created_at(s) && s.to_multiset() == self.rows_seq().filter(
                    search_pred(*filter),
                ).to_multiset() && page@ == page_of(s, filter.offset as int, filter.limit as int),
    {
        if filter.limit < 0 || filter.limit > MAX_SEARCH_LIMIT || filter.offset < 0 {
            return Err(ServiceError::InvalidFilter);
        }
        let ghost pred = search_pred(*filter);
        let mut matched: Vec<TokenTransactionEventDb> = Vec::new();
        let mut i: usize = 0;
        while i < self.rows.len()
            invariant
                0 <= i <= self.rows@.len(),
                pred == search_pred(*filter),
                matched@ == self.rows@.subrange(0, i as int).filter(pred),
            decreases self.rows@.len() - i,
        {
            proof {
                lemma_filter_step(self.rows@, pred, i as int);
            }
            if search_matches(&self.rows[i], filter) {
                matched.push(self.rows[i].clone());
            }
            i = i + 1;
        }
        proof {
            assert(self.rows@.subrange(0, self.rows@.len() as int) =~= self.rows@);
        }
        let sorted = sort_by_created_at(matched);
        let len = sorted.len();
        let limit_n: usize = filter.limit as usize;
        let start: usize = if (filter.offset as u64) <= (len as u64) {
            filter.offset as usize
        } else {
            len
        };
        let end: usize = if len - start <= limit_n {
            len
        } else {
            start + limit_n
        };
        proof {
            assert(start as int == if filter.offset as int <= sorted@.len() {
                filter.offset as int
            } else {
                sorted@.len() as int
            });
            assert(end as int == if filter.offset as int + filter.limit as int <= sorted@.len() {
                filter.offset as int + filter.limit as int
            } else {
                sorted@.len() as int
            });
        }
        let mut page: Vec<TokenTransactionEventDb> = Vec::new();
        let mut k: usize = start;
        while k < end
            invariant
                start <= k <= end <= sorted@.len(),
                page@ == sorted@.subrange(start as int, k as int),
            decreases end - k,
        {
            page.push(sorted[k].clone());
            proof {
                assert(page@ =~= sorted@.subrange(start as int, k + 1));
            }
            k = k + 1;
        }
        proof {
            assert(page@ == page_of(sorted@, filter.offset as int, filter.limit as int));
        }
        Ok(page)
    }
}

/// A lookup on a key that no stored row matches is a definitive miss;
/// after inserting a row that carries the key, the identical lookup
/// returns exactly the inserted row.
pub proof fn lemma_find_by_message_hash_after_insert(
    rows: Seq<TokenTransactionEventDb>,
    row: TokenTransactionEventDb,
    service_id: ServiceId,
    message_hash: Seq<char>,
    account_workchain_id: i32,
    account_hex: Seq<char>,
)
    requires
        forall|j: int|
            0 <= j < rows.len() ==> !(token_key_pred(
                service_id,
                message_hash,
                account_workchain_id,
                account_hex,
            ))(#[trigger] rows[j]),
        (token_key_pred(service_id, message_hash, account_workchain_id, account_hex))(row),
    ensures
        lookup_by_message_hash(rows, service_id, message_hash, account_workchain_id, account_hex)
            == Err::<TokenTransactionEventDb, ServiceError>(ServiceError::NotFound),
        lookup_by_message_hash(
            rows.push(row),
            service_id,
            message_hash,
            account_workchain_id,
            account_hex,
        ) == Ok::<TokenTransactionEventDb, ServiceError>(row),
{
    let pred = token_key_pred(service_id, message_hash, account_workchain_id, account_hex);
    lemma_first_match_idx_none(rows, pred);
    assert(forall|j: int| 0 <= j < rows.len() ==> rows.push(row)[j] == #[trigger] rows[j]);
    lemma_first_match_idx_at(rows.push(row), pred, rows.len() as int);
}

/// A status update on a key that no stored row matches is a definitive
/// miss and writes nothing.
pub proof fn lemma_update_unknown_key_writes_nothing(
    rows: Seq<TokenTransactionEventDb>,
    message_hash: Seq<char>,
    account_workchain_id: i32,
    account_hex: Seq<char>,
    st: TonEventStatus,
)
    requires
        forall|j: int|
            0 <= j < rows.len() ==> !(update_key_pred(
                message_hash,
                account_workchain_id,
                account_hex,
            ))(#[trigger] rows[j]),
    ensures
        rows_after_update(rows, message_hash, account_workchain_id, account_hex, st) == rows,
        update_result(rows, message_hash, account_workchain_id, account_hex, st) == Err::<
            TokenTransactionEventDb,
            ServiceError,
        >(ServiceError::NotFound),
{
    lemma_first_match_idx_none(
        rows,
        update_key_pred(message_hash, account_workchain_id, account_hex),
    );
}

/// One step of filtering a prefix: extending the prefix by one element
/// appends that element exactly when it satisfies the predicate.
proof fn lemma_filter_step(
    rows: Seq<TokenTransactionEventDb>,
    pred: spec_fn(TokenTransactionEventDb) -> bool,
    i: int,
)
    requires
        0 <= i < rows.len(),
    ensures
        pred(rows[i]) ==> rows.subrange(0, i + 1).filter(pred) == rows.subrange(0, i).filter(
            pred,
        ).push(rows[i]),
        !pred(rows[i]) ==> rows.subrange(0, i + 1).filter(pred) == rows.subrange(0, i).filter(pred),
{
    let single = seq![rows[i]];
    assert(rows.subrange(0, i + 1) =~= rows.subrange(0, i) + single);
    Seq::filter_distributes_over_add(rows.subrange(0, i), single, pred);
    reveal_with_fuel(Seq::<TokenTransactionEventDb>::filter, 2);
    assert(single.drop_last() =~= Seq::<TokenTransactionEventDb>::empty());
    if pred(rows[i]) {
        assert(single.filter(pred) =~= single);
        assert(rows.subrange(0, i).filter(pred) + single =~= rows.subrange(0, i).filter(pred).push(
            rows[i],
        ));
    } else {
        assert(single.filter(pred) =~= Seq::<TokenTransactionEventDb>::empty());
        assert(rows.subrange(0, i).filter(pred) + single.filter(pred) =~= rows.subrange(
            0,
            i,
        ).filter(pred));
    }
}

/// Whether a row satisfies every predicate a search filter carries.
fn search_matches(row: &TokenTransactionEventDb, f: &TransactionsEventsSearch) -> (r: bool)
    ensures
        r == search_pred(*f)(*row),
{
    match &f.created_at_ge {
        Some(t) => {
            if row.created_at < *t {
                return false;
            }
        },
        None => {},
    }
    match &f.created_at_le {
        Some(t) => {
            if row.created_at > *t {
                return false;
            }
        },
        None => {},
    }
    match &f.transaction_id {
        Some(id) => {
            if row.token_transaction_id != *id {
                return false;
            }
        },
        None => {},
    }
    match &f.message_hash {
        Some(h) => {
            if !(row.message_hash == *h) {
                return false;
            }
        },
        None => {},
    }
    match &f.account_workchain_id {
        Some(w) => {
            if row.account_workchain_id != *w {
                return false;
            }
        },
        None => {},
    }
    match &f.account_hex {
        Some(h) => {
            if !(row.account_hex == *h) {
                return false;
            }
        },
        None => {},
    }
    match &f.transaction_direction {
        Some(d) => {
            if row.transaction_direction != *d {
                return false;
            }
        },
        None => {},
    }
    match &f.transaction_status {
        Some(s) => {
            if row.transaction_status != *s {
                return false;
            }
        },
        None => {},
    }
    match &f.event_status {
        Some(s) => {
            if row.event_status != *s {
                return false;
            }
        },
        None => {},
    }
    true
}

/// Orders rows by creation time, earliest first, keeping exactly the
/// same collection of rows.
fn sort_by_created_at(rows: Vec<TokenTransactionEventDb>) -> (r: Vec<TokenTransactionEventDb>)
    ensures
        sorted_by_created_at(r@),
        r@.to_multiset() == rows@.to_multiset(),
{
    let ghost orig = rows@;
    let mut rest = rows;
    let mut out: Vec<TokenTransactionEventDb> = Vec::new();
    while rest.len() > 0
        invariant
            sorted_by_created_at(out@),
            out@.to_multiset().add(rest@.to_multiset()) == orig.to_multiset(),
            forall|a: int, b: int|
                0 <= a < out@.len() && 0 <= b < rest@.len() ==> #[trigger] out@[a].created_at
                    <= #[trigger] rest@[b].created_at,
        decreases rest@.len(),
    {
        let mut m: usize = 0;
        let mut i: usize = 1;
        while i < rest.len()
            invariant
                0 < rest@.len(),
                0 <= m < i <= rest@.len(),
                forall|j: int| 0 <= j < i ==> rest@[m as int].created_at <= #[trigger] rest@[j].created_at,
            decreases rest@.len() - i,
        {
            if rest[i].created_at < rest[m].created_at {
                m = i;
            }
            i = i + 1;
        }
        let ghost rest_before = rest@;
        let row = rest.remove(m);
        proof {
            assert(rest_before.to_multiset().count(row) > 0) by {
                assert(rest_before.contains(row));
            }
            assert(out@.to_multiset().insert(row).add(rest_before.to_multiset().remove(row))
                =~= out@.to_multiset().add(rest_before.to_multiset()));
            assert(forall|b: int|
                0 <= b < rest@.len() ==> row.created_at <= #[trigger] rest@[b].created_at) by {
                assert(forall|b: int|
                    0 <= b < rest@.len() ==> rest@[b] == rest_before[if b < m { b } else { b + 1 }]);
            }
        }
        out.push(row);
    }
    proof {
        assert(rest@.to_multiset() =~= Multiset::<TokenTransactionEventDb>::empty());
        assert(out@.to_multiset() =~= orig.to_multiset());
    }
    out
}

} // verus!
