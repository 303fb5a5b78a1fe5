//! Health telemetry: counters and last-seen times accumulated over the
//! runner's lifetime, and the deduplicated set of unknown discriminators.
//! Time is carried as an abstract tick count supplied by the caller;
//! counters saturate instead of wrapping.
use vstd::prelude::*;

use crate::bytes::{le_u64_at, read_le_u64};
use crate::events::DISCRIMINATOR_LEN;

verus! {

/// Increment that stops at the top of the counter's range.
pub open spec fn sat_inc_spec(x: u64) -> u64 {
    if x == u64::MAX {
        x
    } else {
        (x + 1) as u64
    }
}

/// Subtraction that stops at zero.
pub open spec fn sat_sub_spec(a: u64, b: u64) -> u64 {
    if a >= b {
        (a - b) as u64
    } else {
        0
    }
}

/// Specification-level state of the health monitor.
pub struct StatsModel {
    pub started_at: u64,
    pub market_events: u64,
    pub close_events: u64,
    pub decode_errors: u64,
    pub db_errors: u64,
    pub last_market_at: Option<u64>,
    pub last_close_at: Option<u64>,
    pub unknown_discriminators: Seq<u64>,
}

/// The key under which an unknown discriminator is remembered: its 8 bytes
/// read as one little-endian integer, a one-to-one encoding.
pub open spec fn discriminator_key(payload: Seq<u8>) -> u64 {
    le_u64_at(payload, 0) as u64
}

/// A payload's discriminator has not been seen before (and is long enough
/// to hold one).
pub open spec fn unknown_is_new(st: StatsModel, payload: Seq<u8>) -> bool {
    payload.len() >= DISCRIMINATOR_LEN && !st.unknown_discriminators.contains(
        discriminator_key(payload),
    )
}

/// Recording an unknown discriminator: remembered once, ignored on every
/// later sighting and on payloads too short to hold one.
pub open spec fn record_unknown_model(st: StatsModel, payload: Seq<u8>) -> StatsModel {
    if unknown_is_new(st, payload) {
        StatsModel {
            unknown_discriminators: st.unknown_discriminators.push(discriminator_key(payload)),
            ..st
        }
    } else {
        st
    }
}

/// Recording one persisted market event at tick `now`.
pub open spec fn record_market_model(st: StatsModel, now: u64) -> StatsModel {
    StatsModel {
        market_events: sat_inc_spec(st.market_events),
        last_market_at: Some(now),
        ..st
    }
}

/// Recording one persisted close event at tick `now`.
pub open spec fn record_close_model(st: StatsModel, now: u64) -> StatsModel {
    StatsModel { close_events: sat_inc_spec(st.close_events), last_close_at: Some(now), ..st }
}

/// Recording one decode failure.
pub open spec fn record_decode_error_model(st: StatsModel) -> StatsModel {
    StatsModel { decode_errors: sat_inc_spec(st.decode_errors), ..st }
}

/// Recording one persistence failure.
pub open spec fn record_db_error_model(st: StatsModel) -> StatsModel {
    StatsModel { db_errors: sat_inc_spec(st.db_errors), ..st }
}

/// The freshly constructed monitor state.
pub open spec fn stats_init_model(now: u64) -> StatsModel {
    StatsModel {
        started_at: now,
        market_events: 0,
        close_events: 0,
        decode_errors: 0,
        db_errors: 0,
        last_market_at: None,
        last_close_at: None,
        unknown_discriminators: Seq::empty(),
    }
}

/// In-memory accumulator of the ingestion path's health counters.
pub struct IngestStats {
    pub started_at: u64,
    pub market_events: u64,
    pub close_events: u64,
    pub decode_errors: u64,
    pub db_errors: u64,
    pub last_market_at: Option<u64>,
    pub last_close_at: Option<u64>,
    pub unknown_discriminators: Vec<u64>,
}

impl View for IngestStats {
    type V = StatsModel;

    open spec fn view(&self) -> StatsModel {
        StatsModel {
            started_at: self.started_at,
            market_events: self.market_events,
            close_events: self.close_events,
            decode_errors: self.decode_errors,
            db_errors: self.db_errors,
            last_market_at: self.last_market_at,
            last_close_at: self.last_close_at,
            unknown_discriminators: self.unknown_discriminators@,
        }
    }
}

impl IngestStats {
    /// No remembered discriminator occurs twice.
    pub open spec fn wf(self) -> bool {
        forall|i: int, j: int|
            0 <= i < j < self.unknown_discriminators@.len()
                ==> self.unknown_discriminators@[i] != self.unknown_discriminators@[j]
    }

    /// A fresh monitor started at tick `now`.
    pub fn new(now: u64) -> (r: IngestStats)
        ensures
            r@ == stats_init_model(now),
            r.wf(),
    {
        IngestStats {
            started_at: now,
            market_events: 0,
            close_events: 0,
            decode_errors: 0,
            db_errors: 0,
            last_market_at: None,
            last_close_at: None,
            unknown_discriminators: Vec::new(),
        }
    }

    /// Count one persisted market event, last seen at tick `now`.
    pub fn record_market_event(&mut self, now: u64)
        requires
            old(self).wf(),
        ensures
            final(self)@ == record_market_model(old(self)@, now),
            final(self).wf(),
    {
        self.market_events = crate::sat_inc(self.market_events);
        self.last_market_at = Some(now);
    }

    /// Count one persisted close event, last seen at tick `now`.
    pub fn record_close_event(&mut self, now: u64)
        requires
            old(self).wf(),
        ensures
            final(self)@ == record_close_model(old(self)@, now),
            final(self).wf(),
    {
        self.close_events = crate::sat_inc(self.close_events);
        self.last_close_at = Some(now);
    }

    /// Count one persistence failure.
    pub fn record_db_error(&mut self)
        requires
            old(self).wf(),
        ensures
            final(self)@ == record_db_error_model(old(self)@),
            final(self).wf(),
    {
        self.db_errors = crate::sat_inc(self.db_errors);
    }

    /// Count one decode failure.
    pub fn record_decode_error(&mut self)
        requires
            old(self).wf(),
        ensures
            final(self)@ == record_decode_error_model(old(self)@),
            final(self).wf(),
    {
        self.decode_errors = crate::sat_inc(self.decode_errors);
    }

    /// Remember the discriminator of an unmatched payload. Returns whether
    /// it was seen for the first time — only then should it be reported.
    pub fn record_unknown_discriminator(&mut self, payload: &Vec<u8>) -> (newly: bool)
        requires
            old(self).wf(),
        ensures
            final(self)@ == record_unknown_model(old(self)@, payload@),
            newly == unknown_is_new(old(self)@, payload@),
            final(self).wf(),
    {
        if payload.len() < DISCRIMINATOR_LEN {
            return false;
        }
        let key = read_le_u64(payload, 0);
        let mut i: usize = 0;
        while i < self.unknown_discriminators.len()
            invariant
                *self == *old(self),
                old(self).wf(),
                payload@.len() >= DISCRIMINATOR_LEN,
                key == discriminator_key(payload@),
                i <= self.unknown_discriminators@.len(),
                forall|j: int| 0 <= j < i ==> self.unknown_discriminators@[j] != key,
        decreases self.unknown_discriminators@.len() - i,
        {
            if self.unknown_discriminators[i] == key {
                assert(self.unknown_discriminators@.contains(key));
                return false;
            }
            i += 1;
        }
        assert(!self.unknown_discriminators@.contains(key));
        self.unknown_discriminators.push(key);
        true
    }
}

/// A read-only summary of the monitor at tick `now`.
#[derive(Clone, Copy, Debug, PartialEq, Eq)]
pub struct HealthSnapshot {
    pub uptime: u64,
    pub market_events: u64,
    pub close_events: u64,
    pub decode_errors: u64,
    pub db_errors: u64,
    pub unknown_discriminators: u64,
    pub last_market_ago: Option<u64>,
    pub last_close_ago: Option<u64>,
}

/// The summary the monitor owes at tick `now`.
pub open spec fn snapshot_model(st: StatsModel, now: u64) -> HealthSnapshot {
    HealthSnapshot {
        uptime: sat_sub_spec(now, st.started_at),
        market_events: st.market_events,
        close_events: st.close_events,
        decode_errors: st.decode_errors,
        db_errors: st.db_errors,
        unknown_discriminators: if st.unknown_discriminators.len() <= u64::MAX {
            st.unknown_discriminators.len() as u64
        } else {
            u64::MAX
        },
        last_market_ago: match st.last_market_at {
            Some(t) => Some(sat_sub_spec(now, t)),
            None => None,
        },
        last_close_ago: match st.last_close_at {
            Some(t) => Some(sat_sub_spec(now, t)),
            None => None,
        },
    }
}

impl IngestStats {
    /// Summarize the counters at tick `now`; reading changes nothing.
    pub fn snapshot(&self, now: u64) -> (r: HealthSnapshot)
        ensures
            r == snapshot_model(self@, now),
    {
        HealthSnapshot {
            uptime: if now >= self.started_at {
                now - self.started_at
            } else {
                0
            },
            market_events: self.market_events,
            close_events: self.close_events,
            decode_errors: self.decode_errors,
            db_errors: self.db_errors,
            unknown_discriminators: self.unknown_discriminators.len() as u64,
            last_market_ago: match self.last_market_at {
                Some(t) => Some(
                    if now >= t {
                        now - t
                    } else {
                        0
                    },
                ),
                None => None,
            },
            last_close_ago: match self.last_close_at {
                Some(t) => Some(
                    if now >= t {
                        now - t
                    } else {
                        0
                    },
                ),
                None => None,
            },
        }
    }
}

/// The lower-case hex digit for a value below 16.
pub open spec fn hex_digit(n: int) -> u8 {
    if n < 10 {
        (0x30 + n) as u8
    } else {
        (0x57 + n) as u8
    }
}

/// The lower-case hex rendering of a byte string, two digits per byte.
pub open spec fn hex_of(s: Seq<u8>) -> Seq<u8>
    decreases s.len(),
{
    if s.len() == 0 {
        Seq::empty()
    } else {
        seq![hex_digit(s[0] as int / 16), hex_digit(s[0] as int % 16)] + hex_of(s.drop_first())
    }
}

proof fn lemma_hex_of_push(s: Seq<u8>, x: u8)
    ensures
        hex_of(s.push(x)) == hex_of(s) + seq![hex_digit(x as int / 16), hex_digit(x as int % 16)],
    decreases s.len(),
{
    if s.len() == 0 {
        assert(s.push(x) =~= seq![x]);
        assert(s.push(x).drop_first() =~= Seq::<u8>::empty());
        assert(hex_of(s.push(x).drop_first()) == Seq::<u8>::empty());
        assert(hex_of(s) == Seq::<u8>::empty());
        assert(hex_of(s.push(x)) =~= hex_of(s) + seq![hex_digit(x as int / 16), hex_digit(x as int % 16)]);
    } else {
        assert(s.push(x).drop_first() =~= s.drop_first().push(x));
        lemma_hex_of_push(s.drop_first(), x);
        assert(hex_of(s.push(x)) =~= hex_of(s) + seq![hex_digit(x as int / 16), hex_digit(x as int % 16)]);
    }
}

/// Render a discriminator (or any byte string) as lower-case hex, two
/// digits per byte, for reporting.
pub fn hex_discriminator(d: &Vec<u8>) -> (r: Vec<u8>)
    ensures
        r@ == hex_of(d@),
{
    let mut r: Vec<u8> = Vec::new();
    let mut i: usize = 0;
    proof {
        assert(d@.subrange(0, 0) =~= Seq::<u8>::empty());
    }
    while i < d.len()
        invariant
            i <= d.len(),
            r@ == hex_of(d@.subrange(0, i as int)),
        decreases d.len() - i,
    {
        let b = d[i];
        let hi = b / 16;
        let lo = b % 16;
        r.push(if hi < 10 { 0x30 + hi } else { 0x57 + hi });
        r.push(if lo < 10 { 0x30 + lo } else { 0x57 + lo });
        proof {
            lemma_hex_of_push(d@.subrange(0, i as int), d@[i as int]);
            assert(d@.subrange(0, i + 1) =~= d@.subrange(0, i as int).push(d@[i as int]));
            assert(r@ =~= hex_of(d@.subrange(0, i + 1)));
        }
        i += 1;
    }
    proof {
        assert(d@.subrange(0, d@.len() as int) =~= d@);
    }
    r
}

/// Recording the same unmatched discriminator twice remembers it only on
/// the first sighting, and the seen-set only ever grows: what was recorded
/// stays, in place.
pub proof fn lemma_unknown_dedup(st: StatsModel, payload: Seq<u8>)
    ensures
        !unknown_is_new(record_unknown_model(st, payload), payload),
        record_unknown_model(record_unknown_model(st, payload), payload) == record_unknown_model(
            st,
            payload,
        ),
        st.unknown_discriminators.is_prefix_of(
            record_unknown_model(st, payload).unknown_discriminators,
        ),
{
    if unknown_is_new(st, payload) {
        let key = discriminator_key(payload);
        let st1 = record_unknown_model(st, payload);
        assert(st1.unknown_discriminators[st.unknown_discriminators.len() as int] == key);
        assert(st1.unknown_discriminators.contains(key));
        assert(st.unknown_discriminators.is_prefix_of(st1.unknown_discriminators)) by {
            assert(st1.unknown_discriminators.subrange(0, st.unknown_discriminators.len() as int)
                =~= st.unknown_discriminators);
        }
    }
}

} // verus!
