//! The ingestion store: rows keyed by the transaction signature, one table
//! per event kind, written insert-or-ignore. A conflicting key is a no-op
//! reported as `DuplicateIgnored`, never an error — the exactly-once
//! guarantee surfaced to the caller.
use vstd::prelude::*;

use crate::bytes::bytes_eq;
use crate::events::{
    ClosePositionEvent, ClosePositionModel, EventKind, EventModel, IngestOutcome, KeeperEvent,
    MarketUpdateEvent,
};

verus! {

/// A persisted market-update row.
#[derive(Debug)]
pub struct MarketRow {
    pub signature: Vec<u8>,
    pub slot: u64,
    pub event: MarketUpdateEvent,
}

/// A persisted position-close row.
#[derive(Debug)]
pub struct CloseRow {
    pub signature: Vec<u8>,
    pub slot: u64,
    pub event: ClosePositionEvent,
}

/// Specification-level model of a market-update row.
pub struct MarketRowModel {
    pub signature: Seq<u8>,
    pub slot: u64,
    pub event: MarketUpdateEvent,
}

/// Specification-level model of a position-close row.
pub struct CloseRowModel {
    pub signature: Seq<u8>,
    pub slot: u64,
    pub event: ClosePositionModel,
}

impl View for MarketRow {
    type V = MarketRowModel;

    open spec fn view(&self) -> MarketRowModel {
        MarketRowModel { signature: self.signature@, slot: self.slot, event: self.event }
    }
}

impl View for CloseRow {
    type V = CloseRowModel;

    open spec fn view(&self) -> CloseRowModel {
        CloseRowModel { signature: self.signature@, slot: self.slot, event: self.event@ }
    }
}

/// Specification-level model of the store: both tables, in insertion order.
pub struct StoreModel {
    pub market_rows: Seq<MarketRowModel>,
    pub close_rows: Seq<CloseRowModel>,
}

impl StoreModel {
    /// The signatures present in the table of `kind`.
    pub open spec fn has_key(self, kind: EventKind, sig: Seq<u8>) -> bool {
        match kind {
            EventKind::MarketUpdate => exists|i: int|
                0 <= i < self.market_rows.len() && self.market_rows[i].signature == sig,
            EventKind::ClosePosition => exists|i: int|
                0 <= i < self.close_rows.len() && self.close_rows[i].signature == sig,
        }
    }

    /// Number of rows of `kind` keyed by `sig`.
    pub open spec fn count_key(self, kind: EventKind, sig: Seq<u8>) -> nat {
        match kind {
            EventKind::MarketUpdate => count_market(self.market_rows, sig),
            EventKind::ClosePosition => count_close(self.close_rows, sig),
        }
    }

    /// Within each table no signature occurs twice.
    pub open spec fn wf(self) -> bool {
        &&& forall|i: int, j: int|
            0 <= i < j < self.market_rows.len() ==> self.market_rows[i].signature
                != self.market_rows[j].signature
        &&& forall|i: int, j: int|
            0 <= i < j < self.close_rows.len() ==> self.close_rows[i].signature
                != self.close_rows[j].signature
    }

    pub open spec fn empty() -> StoreModel {
        StoreModel { market_rows: Seq::empty(), close_rows: Seq::empty() }
    }
}

/// Rows of the market table keyed by `sig`.
pub open spec fn count_market(rows: Seq<MarketRowModel>, sig: Seq<u8>) -> nat
    decreases rows.len(),
{
    if rows.len() == 0 {
        0
    } else {
        count_market(rows.drop_last(), sig) + if rows.last().signature == sig {
            1nat
        } else {
            0nat
        }
    }
}

/// Rows of the close table keyed by `sig`.
pub open spec fn count_close(rows: Seq<CloseRowModel>, sig: Seq<u8>) -> nat
    decreases rows.len(),
{
    if rows.len() == 0 {
        0
    } else {
        count_close(rows.drop_last(), sig) + if rows.last().signature == sig {
            1nat
        } else {
            0nat
        }
    }
}

/// Persisting one event: insert when the key is fresh, ignore otherwise.
pub open spec fn persist_model(st: StoreModel, sig: Seq<u8>, slot: u64, e: EventModel) -> (
    StoreModel,
    IngestOutcome,
) {
    if st.has_key(e.kind(), sig) {
        (st, IngestOutcome::DuplicateIgnored)
    } else {
        match e {
            EventModel::MarketUpdate(ev) => (
                StoreModel {
                    market_rows: st.market_rows.push(
                        MarketRowModel { signature: sig, slot, event: ev },
                    ),
                    ..st
                },
                IngestOutcome::Persisted,
            ),
            EventModel::ClosePosition(ev) => (
                StoreModel {
                    close_rows: st.close_rows.push(
                        CloseRowModel { signature: sig, slot, event: ev },
                    ),
                    ..st
                },
                IngestOutcome::Persisted,
            ),
        }
    }
}

/// In-memory event store with insert-or-ignore writes.
pub struct EventStore {
    pub market_rows: Vec<MarketRow>,
    pub close_rows: Vec<CloseRow>,
}

impl View for EventStore {
    type V = StoreModel;

    open spec fn view(&self) -> StoreModel {
        StoreModel {
            market_rows: self.market_rows@.map_values(|r: MarketRow| r@),
            close_rows: self.close_rows@.map_values(|r: CloseRow| r@),
        }
    }
}

impl EventStore {
    /// A store with no rows.
    pub fn new() -> (r: EventStore)
        ensures
            r@ == StoreModel::empty(),
            r@.wf(),
    {
        let r = EventStore { market_rows: Vec::new(), close_rows: Vec::new() };
        proof {
            assert(r@.market_rows =~= Seq::<MarketRowModel>::empty());
            assert(r@.close_rows =~= Seq::<CloseRowModel>::empty());
        }
        r
    }

    /// Is a row of `kind` keyed by `signature` present?
    pub fn contains_key(&self, kind: EventKind, signature: &Vec<u8>) -> (r: bool)
        ensures
            r == self@.has_key(kind, signature@),
    {
        match kind {
            EventKind::MarketUpdate => {
                let mut i: usize = 0;
                while i < self.market_rows.len()
                    invariant
                        kind == EventKind::MarketUpdate,
                        i <= self.market_rows@.len(),
                        forall|j: int|
                            0 <= j < i ==> #[trigger] self@.market_rows[j].signature != signature@,
                    decreases self.market_rows@.len() - i,
                {
                    if bytes_eq(&self.market_rows[i].signature, signature) {
                        assert(self@.market_rows[i as int].signature == signature@);
                        return true;
                    }
                    i += 1;
                }
                false
            },
            EventKind::ClosePosition => {
                let mut i: usize = 0;
                while i < self.close_rows.len()
                    invariant
                        kind == EventKind::ClosePosition,
                        i <= self.close_rows@.len(),
                        forall|j: int|
                            0 <= j < i ==> #[trigger] self@.close_rows[j].signature != signature@,
                    decreases self.close_rows@.len() - i,
                {
                    if bytes_eq(&self.close_rows[i].signature, signature) {
                        assert(self@.close_rows[i as int].signature == signature@);
                        return true;
                    }
                    i += 1;
                }
                false
            },
        }
    }

    /// Persist one event insert-or-ignore, keyed by its signature within
    /// its kind's table.
    #[verifier::spinoff_prover]
    pub fn persist(&mut self, signature: &Vec<u8>, slot: u64, event: &KeeperEvent) -> (r:
        IngestOutcome)
        requires
            old(self)@.wf(),
        ensures
            (final(self)@, r) == persist_model(old(self)@, signature@, slot, event@),
            final(self)@.wf(),
            final(self)@.has_key(event@.kind(), signature@),
    {
        let kind = event.kind();
        if self.contains_key(kind, signature) {
            return IngestOutcome::DuplicateIgnored;
        }
        let sig_copy = crate::bytes::sub_vec(signature, 0, signature.len());
        assert(sig_copy@ =~= signature@);
        match event {
            KeeperEvent::MarketUpdate(ev) => {
                let row = MarketRow { signature: sig_copy, slot, event: *ev };
                self.market_rows.push(row);
                proof {
                    assert(self@.market_rows =~= old(self)@.market_rows.push(
                        MarketRowModel { signature: signature@, slot, event: *ev },
                    ));
                    let rows = self@.market_rows;
                    let n = old(self)@.market_rows.len() as int;
                    assert forall|i: int, j: int| 0 <= i < j < rows.len() implies rows[i].signature
                        != rows[j].signature by {
                        if j == n {
                            assert(old(self)@.market_rows[i].signature != signature@);
                        }
                    }
                    assert(self@.market_rows[n].signature == signature@);
                }
            },
            KeeperEvent::ClosePosition(ev) => {
                let row = CloseRow { signature: sig_copy, slot, event: ev.duplicate() };
                self.close_rows.push(row);
                proof {
                    assert(self@.close_rows =~= old(self)@.close_rows.push(
                        CloseRowModel { signature: signature@, slot, event: ev@ },
                    ));
                    let rows = self@.close_rows;
                    let n = old(self)@.close_rows.len() as int;
                    assert forall|i: int, j: int| 0 <= i < j < rows.len() implies rows[i].signature
                        != rows[j].signature by {
                        if j == n {
                            assert(old(self)@.close_rows[i].signature != signature@);
                        }
                    }
                    assert(self@.close_rows[n].signature == signature@);
                }
            },
        }
        IngestOutcome::Persisted
    }
}

/// A table with no row keyed by `sig` counts zero such rows, and inserting
/// one raises the count by one.
proof fn lemma_count_market_push(rows: Seq<MarketRowModel>, row: MarketRowModel, sig: Seq<u8>)
    ensures
        count_market(rows.push(row), sig) == count_market(rows, sig) + if row.signature == sig {
            1nat
        } else {
            0nat
        },
{
    assert(rows.push(row).drop_last() =~= rows);
    assert(rows.push(row).last() == row);
}

proof fn lemma_count_close_push(rows: Seq<CloseRowModel>, row: CloseRowModel, sig: Seq<u8>)
    ensures
        count_close(rows.push(row), sig) == count_close(rows, sig) + if row.signature == sig {
            1nat
        } else {
            0nat
        },
{
    assert(rows.push(row).drop_last() =~= rows);
    assert(rows.push(row).last() == row);
}

/// A table holds no row keyed by `sig` exactly when it counts zero of them.
proof fn lemma_count_market_zero(rows: Seq<MarketRowModel>, sig: Seq<u8>)
    ensures
        (count_market(rows, sig) == 0) <==> (forall|i: int|
            0 <= i < rows.len() ==> rows[i].signature != sig),
    decreases rows.len(),
{
    if rows.len() > 0 {
        lemma_count_market_zero(rows.drop_last(), sig);
        assert(forall|i: int|
            0 <= i < rows.len() - 1 ==> rows.drop_last()[i] == rows[i]);
    }
}

proof fn lemma_count_close_zero(rows: Seq<CloseRowModel>, sig: Seq<u8>)
    ensures
        (count_close(rows, sig) == 0) <==> (forall|i: int|
            0 <= i < rows.len() ==> rows[i].signature != sig),
    decreases rows.len(),
{
    if rows.len() > 0 {
        lemma_count_close_zero(rows.drop_last(), sig);
        assert(forall|i: int|
            0 <= i < rows.len() - 1 ==> rows.drop_last()[i] == rows[i]);
    }
}

/// A write never removes a key: whatever was keyed before a persist is
/// still keyed after it.
pub proof fn lemma_persist_preserves_keys(
    st: StoreModel,
    sig: Seq<u8>,
    slot: u64,
    e: EventModel,
    kind: EventKind,
    s: Seq<u8>,
)
    requires
        st.has_key(kind, s),
    ensures
        persist_model(st, sig, slot, e).0.has_key(kind, s),
{
    let st1 = persist_model(st, sig, slot, e).0;
    match kind {
        EventKind::MarketUpdate => {
            let i = choose|i: int|
                0 <= i < st.market_rows.len() && st.market_rows[i].signature == s;
            assert(st1.market_rows[i].signature == s);
        },
        EventKind::ClosePosition => {
            let i = choose|i: int|
                0 <= i < st.close_rows.len() && st.close_rows[i].signature == s;
            assert(st1.close_rows[i].signature == s);
        },
    }
}

/// A write establishes its own key.
pub proof fn lemma_persist_establishes_key(st: StoreModel, sig: Seq<u8>, slot: u64, e: EventModel)
    ensures
        persist_model(st, sig, slot, e).0.has_key(e.kind(), sig),
{
    if !st.has_key(e.kind(), sig) {
        let st1 = persist_model(st, sig, slot, e).0;
        match e {
            EventModel::MarketUpdate(_) => {
                assert(st1.market_rows[st.market_rows.len() as int].signature == sig);
            },
            EventModel::ClosePosition(_) => {
                assert(st1.close_rows[st.close_rows.len() as int].signature == sig);
            },
        }
    }
}

/// Persistence is idempotent per `(signature, kind)`: with the key fresh,
/// the first write answers `Persisted`, a second write of the same key
/// answers `DuplicateIgnored`, changes nothing, and the table then holds
/// exactly one row under that key.
pub proof fn lemma_persist_idempotent(
    st: StoreModel,
    sig: Seq<u8>,
    slot1: u64,
    slot2: u64,
    e1: EventModel,
    e2: EventModel,
)
    requires
        st.wf(),
        !st.has_key(e1.kind(), sig),
        e2.kind() == e1.kind(),
    ensures
        persist_model(st, sig, slot1, e1).1 == IngestOutcome::Persisted,
        persist_model(persist_model(st, sig, slot1, e1).0, sig, slot2, e2).1
            == IngestOutcome::DuplicateIgnored,
        persist_model(persist_model(st, sig, slot1, e1).0, sig, slot2, e2).0 == persist_model(
            st,
            sig,
            slot1,
            e1,
        ).0,
        persist_model(st, sig, slot1, e1).0.count_key(e1.kind(), sig) == 1,
{
    let st1 = persist_model(st, sig, slot1, e1).0;
    match e1 {
        EventModel::MarketUpdate(ev) => {
            let row = MarketRowModel { signature: sig, slot: slot1, event: ev };
            assert(st1.market_rows[st.market_rows.len() as int].signature == sig);
            assert(st1.has_key(e1.kind(), sig));
            lemma_count_market_zero(st.market_rows, sig);
            lemma_count_market_push(st.market_rows, row, sig);
        },
        EventModel::ClosePosition(ev) => {
            let row = CloseRowModel { signature: sig, slot: slot1, event: ev };
            assert(st1.close_rows[st.close_rows.len() as int].signature == sig);
            assert(st1.has_key(e1.kind(), sig));
            lemma_count_close_zero(st.close_rows, sig);
            lemma_count_close_push(st.close_rows, row, sig);
        },
    }
}

} // verus!
