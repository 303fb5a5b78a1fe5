//! The per-notification ingestion pipeline: attribution over the log lines,
//! payload extraction and decoding for each attributed line, then idempotent
//! persistence, with every step mirrored in the health counters.
use vstd::prelude::*;

use crate::attribution::{
    is_program_completion, parse_invoked_program, track, track_prefix, track_step, TrackModel,
};
use crate::bytes::{bytes_eq, sub_vec};
use crate::decode::{decode_event, decode_model, payload_of, DecodeModel, DecodeOutcome};
use crate::decode::extract_event_payload;
use crate::events::{EventKind, EventModel, IngestOutcome, KeeperEvent};
use crate::health::{
    record_close_model, record_decode_error_model, record_market_model, record_unknown_model,
    IngestStats, StatsModel,
};
use crate::registry::EventSchemaRegistry;
use crate::store::{persist_model, EventStore, StoreModel};

verus! {

/// The byte sequences a vector of byte vectors holds.
pub open spec fn lines_model(v: Seq<Vec<u8>>) -> Seq<Seq<u8>> {
    v.map_values(|x: Vec<u8>| x@)
}

/// The models a vector of events holds.
pub open spec fn events_model(v: Seq<KeeperEvent>) -> Seq<EventModel> {
    v.map_values(|e: KeeperEvent| e@)
}

/// Walk the log lines of one transaction and yield the lines attributed to
/// `target`, in original order, together with the count of consistency
/// warnings (pops of an empty stack). Never fails, balanced or not.
pub fn attribute_logs(target: &Vec<u8>, logs: &Vec<Vec<u8>>) -> (r: (Vec<Vec<u8>>, u64))
    ensures
        lines_model(r.0@) == track(target@, lines_model(logs@)).attributed,
        r.1 == track(target@, lines_model(logs@)).warnings,
{
    let ghost lm = lines_model(logs@);
    let mut stack: Vec<Vec<u8>> = Vec::new();
    let mut out: Vec<Vec<u8>> = Vec::new();
    let mut warnings: u64 = 0;
    let mut i: usize = 0;
    proof {
        assert(lines_model(stack@) =~= track_prefix(target@, lm, 0).stack);
        assert(lines_model(out@) =~= track_prefix(target@, lm, 0).attributed);
    }
    while i < logs.len()
        invariant
            i <= logs.len(),
            lm == lines_model(logs@),
            lines_model(stack@) == track_prefix(target@, lm, i as int).stack,
            lines_model(out@) == track_prefix(target@, lm, i as int).attributed,
            warnings == track_prefix(target@, lm, i as int).warnings,
            track_prefix(target@, lm, i as int).warnings <= i,
        decreases logs.len() - i,
    {
        let ghost before = track_prefix(target@, lm, i as int);
        proof {
            assert(lm[i as int] == logs@[i as int]@);
        }
        let line = &logs[i];
        match parse_invoked_program(line) {
            Some(program) => {
                stack.push(program);
                proof {
                    assert(lines_model(stack@) =~= before.stack.push(
                        crate::attribution::invoked_program_of(line@),
                    ));
                }
            },
            None => {
                if is_program_completion(line) {
                    match stack.pop() {
                        Some(_top) => {
                            proof {
                                assert(lines_model(stack@) =~= before.stack.drop_last());
                            }
                        },
                        None => {
                            proof {
                                assert(before.stack.len() == 0);
                            }
                            warnings = warnings + 1;
                        },
                    }
                } else {
                    let attribute = if stack.len() > 0 {
                        bytes_eq(&stack[stack.len() - 1], target)
                    } else {
                        false
                    };
                    proof {
                        if stack@.len() > 0 {
                            assert(lines_model(stack@).last() == stack@.last()@);
                        }
                    }
                    if attribute {
                        let copy = sub_vec(line, 0, line.len());
                        assert(copy@ =~= line@);
                        out.push(copy);
                        proof {
                            assert(lines_model(out@) =~= before.attributed.push(line@));
                        }
                    }
                }
            },
        }
        i += 1;
        proof {
            assert(track_prefix(target@, lm, i as int) == track_step(
                target@,
                before,
                lm[i - 1],
            ));
        }
    }
    (out, warnings)
}

/// State of the decode stage's walk over the attributed lines: the events
/// decoded so far and the health counters as updated so far.
pub struct PipeModel {
    pub events: Seq<EventModel>,
    pub stats: StatsModel,
}

/// One attributed line's effect: no payload — nothing; a known event —
/// collected; an unknown discriminator — remembered once; a malformed body —
/// one decode error.
pub open spec fn pipe_step(mkey: Seq<u8>, ckey: Seq<u8>, st: PipeModel, line: Seq<u8>) -> PipeModel {
    match payload_of(line) {
        Option::None => st,
        Option::Some(p) => match decode_model(mkey, ckey, p) {
            DecodeModel::Decoded(e) => PipeModel { events: st.events.push(e), ..st },
            DecodeModel::TooShort => st,
            DecodeModel::Unknown(_) => PipeModel {
                stats: record_unknown_model(st.stats, p),
                ..st
            },
            DecodeModel::Malformed => PipeModel {
                stats: record_decode_error_model(st.stats),
                ..st
            },
        },
    }
}

/// The decode stage's state after the first `n` attributed lines.
pub open spec fn pipe_prefix(
    mkey: Seq<u8>,
    ckey: Seq<u8>,
    lines: Seq<Seq<u8>>,
    st0: PipeModel,
    n: int,
) -> PipeModel
    decreases n,
{
    if n <= 0 {
        st0
    } else {
        pipe_step(mkey, ckey, pipe_prefix(mkey, ckey, lines, st0, n - 1), lines[n - 1])
    }
}

/// What the decode stage owes over a whole notification: the fold of
/// `pipe_step` over the lines attributed to the target.
pub open spec fn parse_model(
    reg: EventSchemaRegistry,
    target: Seq<u8>,
    logs: Seq<Seq<u8>>,
    stats: StatsModel,
) -> PipeModel {
    let att = track(target, logs).attributed;
    pipe_prefix(
        reg.market_update_key@,
        reg.close_position_key@,
        att,
        PipeModel { events: Seq::empty(), stats },
        att.len() as int,
    )
}

/// Attribute the log lines to `target`, then decode every attributed line:
/// collected events in order, unknown discriminators remembered once,
/// malformed bodies counted as decode errors. Returns the events and the
/// attribution warning count.
pub fn parse_events_from_logs(
    reg: &EventSchemaRegistry,
    target: &Vec<u8>,
    logs: &Vec<Vec<u8>>,
    stats: &mut IngestStats,
) -> (r: (Vec<KeeperEvent>, u64))
    requires
        reg.wf(),
        old(stats).wf(),
    ensures
        events_model(r.0@) == parse_model(*reg, target@, lines_model(logs@), old(stats)@).events,
        final(stats)@ == parse_model(*reg, target@, lines_model(logs@), old(stats)@).stats,
        r.1 == track(target@, lines_model(logs@)).warnings,
        final(stats).wf(),
        forall|k: int| 0 <= k < r.0@.len() ==> (#[trigger] r.0@[k]@).wf(),
{
    let (att, warnings) = attribute_logs(target, logs);
    let ghost attm = track(target@, lines_model(logs@)).attributed;
    let ghost mkey = reg.market_update_key@;
    let ghost ckey = reg.close_position_key@;
    let ghost st0 = PipeModel { events: Seq::empty(), stats: old(stats)@ };
    let mut events: Vec<KeeperEvent> = Vec::new();
    let mut i: usize = 0;
    proof {
        assert(events_model(events@) =~= Seq::<EventModel>::empty());
    }
    while i < att.len()
        invariant
            i <= att.len(),
            reg.wf(),
            stats.wf(),
            mkey == reg.market_update_key@,
            ckey == reg.close_position_key@,
            attm == lines_model(att@),
            st0.events == Seq::<EventModel>::empty(),
            events_model(events@) == pipe_prefix(mkey, ckey, attm, st0, i as int).events,
            stats@ == pipe_prefix(mkey, ckey, attm, st0, i as int).stats,
            forall|k: int| 0 <= k < events@.len() ==> (#[trigger] events@[k]@).wf(),
        decreases att.len() - i,
    {
        let ghost before = pipe_prefix(mkey, ckey, attm, st0, i as int);
        proof {
            assert(attm[i as int] == att@[i as int]@);
        }
        let line = &att[i];
        match extract_event_payload(line) {
            None => {},
            Some(payload) => {
                match decode_event(reg, &payload) {
                    DecodeOutcome::Decoded(ev) => {
                        proof {
                            assert(decode_model(mkey, ckey, payload@) is Decoded);
                        }
                        events.push(ev);
                        proof {
                            assert(events_model(events@) =~= before.events.push(
                                decode_model(mkey, ckey, payload@)->Decoded_0,
                            ));
                        }
                    },
                    DecodeOutcome::TooShort => {},
                    DecodeOutcome::Unknown(_key) => {
                        let _newly: bool = stats.record_unknown_discriminator(&payload);
                    },
                    DecodeOutcome::Malformed => {
                        stats.record_decode_error();
                    },
                }
            },
        }
        i += 1;
        proof {
            assert(pipe_prefix(mkey, ckey, attm, st0, i as int) == pipe_step(
                mkey,
                ckey,
                before,
                attm[i - 1],
            ));
        }
    }
    (events, warnings)
}

/// One notification of the log feed: the slot and signature of the observed
/// transaction and its ordered log lines.
pub struct LogNotification {
    pub slot: u64,
    pub signature: Vec<u8>,
    pub logs: Vec<Vec<u8>>,
}

/// State of the persistence stage: the store, the counters, and the outcome
/// reported for each event so far.
pub struct IngestModel {
    pub store: StoreModel,
    pub stats: StatsModel,
    pub outcomes: Seq<IngestOutcome>,
}

/// One decoded event's effect: its kind is counted as observed at tick
/// `now`, then the event is written insert-or-ignore.
pub open spec fn ingest_step(
    st: IngestModel,
    sig: Seq<u8>,
    slot: u64,
    now: u64,
    e: EventModel,
) -> IngestModel {
    let stats = match e.kind() {
        EventKind::MarketUpdate => record_market_model(st.stats, now),
        EventKind::ClosePosition => record_close_model(st.stats, now),
    };
    let (store, outcome) = persist_model(st.store, sig, slot, e);
    IngestModel { store, stats, outcomes: st.outcomes.push(outcome) }
}

/// The persistence stage's state after the first `n` events.
pub open spec fn ingest_prefix(
    events: Seq<EventModel>,
    sig: Seq<u8>,
    slot: u64,
    now: u64,
    st0: IngestModel,
    n: int,
) -> IngestModel
    decreases n,
{
    if n <= 0 {
        st0
    } else {
        ingest_step(ingest_prefix(events, sig, slot, now, st0, n - 1), sig, slot, now, events[n - 1])
    }
}

/// Nothing decoded is lost: after the persistence stage has taken the
/// first `n` events, every one of them is keyed in the store — written by
/// this pass or already present from an earlier delivery.
pub proof fn lemma_ingest_keys_all_present(
    events: Seq<EventModel>,
    sig: Seq<u8>,
    slot: u64,
    now: u64,
    st0: IngestModel,
    n: int,
)
    requires
        0 <= n <= events.len(),
    ensures
        forall|k: int|
            0 <= k < n ==> ingest_prefix(events, sig, slot, now, st0, n).store.has_key(
                (#[trigger] events[k]).kind(),
                sig,
            ),
    decreases n,
{
    if n > 0 {
        lemma_ingest_keys_all_present(events, sig, slot, now, st0, n - 1);
        let before = ingest_prefix(events, sig, slot, now, st0, n - 1);
        crate::store::lemma_persist_establishes_key(before.store, sig, slot, events[n - 1]);
        assert forall|k: int| 0 <= k < n - 1 implies ingest_prefix(
            events,
            sig,
            slot,
            now,
            st0,
            n,
        ).store.has_key((#[trigger] events[k]).kind(), sig) by {
            crate::store::lemma_persist_preserves_keys(
                before.store,
                sig,
                slot,
                events[n - 1],
                events[k].kind(),
                sig,
            );
        }
    }
}

/// Drive one notification through attribution, decoding and persistence.
/// Returns the outcome of each decoded event, in order, and the count of
/// attribution warnings. Never fails: duplicates are ignored, malformed
/// payloads are counted and dropped.
pub fn handle_logs_notification(
    store: &mut EventStore,
    reg: &EventSchemaRegistry,
    target: &Vec<u8>,
    notification: &LogNotification,
    stats: &mut IngestStats,
    now: u64,
) -> (r: (Vec<IngestOutcome>, u64))
    requires
        reg.wf(),
        old(stats).wf(),
        old(store)@.wf(),
    ensures
        ({
            let parsed = parse_model(
                *reg,
                target@,
                lines_model(notification.logs@),
                old(stats)@,
            );
            let ing = ingest_prefix(
                parsed.events,
                notification.signature@,
                notification.slot,
                now,
                IngestModel { store: old(store)@, stats: parsed.stats, outcomes: Seq::empty() },
                parsed.events.len() as int,
            );
            &&& final(store)@ == ing.store
            &&& final(stats)@ == ing.stats
            &&& r.0@ == ing.outcomes
            &&& r.1 == track(target@, lines_model(notification.logs@)).warnings
        }),
        final(stats).wf(),
        final(store)@.wf(),
{
    let (events, warnings) = parse_events_from_logs(reg, target, &notification.logs, stats);
    let ghost parsed = parse_model(*reg, target@, lines_model(notification.logs@), old(stats)@);
    let ghost st0 = IngestModel {
        store: old(store)@,
        stats: parsed.stats,
        outcomes: Seq::empty(),
    };
    let mut outcomes: Vec<IngestOutcome> = Vec::new();
    let mut i: usize = 0;
    proof {
        assert(outcomes@ =~= Seq::<IngestOutcome>::empty());
    }
    while i < events.len()
        invariant
            i <= events.len(),
            stats.wf(),
            store@.wf(),
            parsed.events == events_model(events@),
            store@ == ingest_prefix(
                parsed.events,
                notification.signature@,
                notification.slot,
                now,
                st0,
                i as int,
            ).store,
            stats@ == ingest_prefix(
                parsed.events,
                notification.signature@,
                notification.slot,
                now,
                st0,
                i as int,
            ).stats,
            outcomes@ == ingest_prefix(
                parsed.events,
                notification.signature@,
                notification.slot,
                now,
                st0,
                i as int,
            ).outcomes,
        decreases events.len() - i,
    {
        let ghost before = ingest_prefix(
            parsed.events,
            notification.signature@,
            notification.slot,
            now,
            st0,
            i as int,
        );
        proof {
            assert(parsed.events[i as int] == events@[i as int]@);
        }
        let event = &events[i];
        match event.kind() {
            EventKind::MarketUpdate => stats.record_market_event(now),
            EventKind::ClosePosition => stats.record_close_event(now),
        }
        let outcome = store.persist(&notification.signature, notification.slot, event);
        outcomes.push(outcome);
        i += 1;
        proof {
            assert(ingest_prefix(
                parsed.events,
                notification.signature@,
                notification.slot,
                now,
                st0,
                i as int,
            ) == ingest_step(before, notification.signature@, notification.slot, now, parsed.events[
                i - 1
            ]));
        }
    }
    (outcomes, warnings)
}

} // verus!
