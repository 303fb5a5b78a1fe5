use base64::Engine;
use twob_keepers::decode::{decode_event, extract_event_payload, DecodeOutcome};
use twob_keepers::events::{EventKind, IngestOutcome, KeeperEvent};
use twob_keepers::health::IngestStats;
use twob_keepers::pipeline::{
    attribute_logs, handle_logs_notification, parse_events_from_logs, LogNotification,
};
use twob_keepers::registry::EventSchemaRegistry;
use twob_keepers::store::EventStore;

fn bv(s: &str) -> Vec<u8> {
    s.as_bytes().to_vec()
}

fn market_key() -> Vec<u8> {
    vec![0xd1, 0x02, 0x33, 0x44, 0x55, 0x66, 0x77, 0x88]
}

fn close_key() -> Vec<u8> {
    vec![0xc2, 0x12, 0x23, 0x34, 0x45, 0x56, 0x67, 0x78]
}

fn registry() -> EventSchemaRegistry {
    EventSchemaRegistry::new(market_key(), close_key()).expect("distinct 8-byte keys")
}

fn market_payload(market_id: u64, base_flow: u64, quote_flow: u64) -> Vec<u8> {
    let mut p = market_key();
    p.extend_from_slice(&market_id.to_le_bytes());
    p.extend_from_slice(&base_flow.to_le_bytes());
    p.extend_from_slice(&quote_flow.to_le_bytes());
    p
}

fn close_payload(authority: [u8; 32], fields: [u64; 7], is_buy: u8) -> Vec<u8> {
    let mut p = close_key();
    p.extend_from_slice(&authority);
    for f in fields.iter() {
        p.extend_from_slice(&f.to_le_bytes());
    }
    p.push(is_buy);
    p
}

fn data_line(payload: &[u8]) -> Vec<u8> {
    let encoded = base64::engine::general_purpose::STANDARD.encode(payload);
    let mut line = bv("Program data: ");
    line.extend_from_slice(encoded.as_bytes());
    line
}

const TARGET: &str = "TwoBTargetProgram1111111111111111";

fn notification(slot: u64, signature: &str, logs: Vec<Vec<u8>>) -> LogNotification {
    LogNotification { slot, signature: bv(signature), logs }
}

#[test]
fn registry_rejects_bad_keys() {
    assert!(EventSchemaRegistry::new(vec![1, 2, 3], close_key()).is_none());
    assert!(EventSchemaRegistry::new(market_key(), vec![0; 7]).is_none());
    assert!(EventSchemaRegistry::new(market_key(), market_key()).is_none());
    assert!(EventSchemaRegistry::new(market_key(), close_key()).is_some());
}

#[test]
fn attribution_yields_target_lines_in_order() {
    let target = bv(TARGET);
    let logs = vec![
        bv(&format!("Program {} invoke [1]", TARGET)),
        bv("Program log: first"),
        bv("Program Inner111 invoke [2]"),
        bv("Program log: from inner"),
        bv("Program Inner111 success"),
        bv("Program log: second"),
        bv(&format!("Program {} success", TARGET)),
    ];
    let (attributed, warnings) = attribute_logs(&target, &logs);
    assert_eq!(warnings, 0);
    assert_eq!(attributed, vec![bv("Program log: first"), bv("Program log: second")]);
}

#[test]
fn attribution_unbalanced_never_attributes_on_empty_stack() {
    let target = bv(TARGET);
    // Truncated stream: a completion with nothing on the stack, then plain
    // lines that nobody owns.
    let logs = vec![
        bv("Program Inner111 success"),
        bv("Program log: orphan"),
        bv(&format!("Program {} invoke [1]", TARGET)),
        bv("Program log: owned"),
        bv(&format!("Program {} success", TARGET)),
        bv("Program Other222 failed: custom program error"),
        bv("Program log: orphan again"),
    ];
    let (attributed, warnings) = attribute_logs(&target, &logs);
    assert_eq!(warnings, 2);
    assert_eq!(attributed, vec![bv("Program log: owned")]);
}

#[test]
fn decoder_ignores_short_payloads() {
    let reg = registry();
    for len in 0..8 {
        let payload: Vec<u8> = market_key().into_iter().take(len).collect();
        assert!(matches!(decode_event(&reg, &payload), DecodeOutcome::TooShort));
    }
}

#[test]
fn decoder_reports_truncated_body_as_error() {
    let reg = registry();
    let mut payload = market_key();
    payload.extend_from_slice(&[1, 2, 3, 4, 5]);
    assert!(matches!(decode_event(&reg, &payload), DecodeOutcome::Malformed));

    let mut close = close_key();
    close.extend_from_slice(&[0u8; 88]);
    assert!(matches!(decode_event(&reg, &close), DecodeOutcome::Malformed));
}

#[test]
fn decoder_reports_unknown_discriminator() {
    let reg = registry();
    let mut payload = vec![9u8, 9, 9, 9, 9, 9, 9, 9];
    payload.extend_from_slice(&[0u8; 100]);
    match decode_event(&reg, &payload) {
        DecodeOutcome::Unknown(key) => assert_eq!(key, vec![9u8; 8]),
        _ => panic!("expected an unknown discriminator"),
    }
}

#[test]
fn decoder_reads_market_update_fields() {
    let reg = registry();
    let payload = market_payload(7, 1_000_000_007, u64::MAX);
    match decode_event(&reg, &payload) {
        DecodeOutcome::Decoded(KeeperEvent::MarketUpdate(e)) => {
            assert_eq!(e.market_id, 7);
            assert_eq!(e.base_flow, 1_000_000_007);
            assert_eq!(e.quote_flow, u64::MAX);
        }
        _ => panic!("expected a market update event"),
    }
}

#[test]
fn decoder_reads_close_position_fields() {
    let reg = registry();
    let authority = [0xabu8; 32];
    let payload = close_payload(authority, [3, 100, 200, 5000, 4800, 150, 50], 1);
    match decode_event(&reg, &payload) {
        DecodeOutcome::Decoded(KeeperEvent::ClosePosition(e)) => {
            assert_eq!(e.position_authority, authority.to_vec());
            assert_eq!(e.market_id, 3);
            assert_eq!(e.start_slot, 100);
            assert_eq!(e.end_slot, 200);
            assert_eq!(e.deposit_amount, 5000);
            assert_eq!(e.swapped_amount, 4800);
            assert_eq!(e.remaining_amount, 150);
            assert_eq!(e.fee_amount, 50);
            assert_eq!(e.is_buy, 1);
        }
        _ => panic!("expected a close position event"),
    }
}

#[test]
fn decoder_tolerates_trailing_bytes() {
    let reg = registry();
    let mut payload = market_payload(1, 2, 3);
    payload.extend_from_slice(&[0xff; 16]);
    assert!(matches!(
        decode_event(&reg, &payload),
        DecodeOutcome::Decoded(KeeperEvent::MarketUpdate(_))
    ));
}

#[test]
fn payload_extraction_decodes_both_prefixes() {
    let mut line = bv("Program data: ");
    line.extend_from_slice(b"AQID");
    assert_eq!(extract_event_payload(&line), Some(vec![1u8, 2, 3]));

    let mut line = bv("Program log: ");
    line.extend_from_slice(b"AQID");
    assert_eq!(extract_event_payload(&line), Some(vec![1u8, 2, 3]));

    let mut bad = bv("Program data: ");
    bad.extend_from_slice(b"!!!not-base64!!!");
    assert_eq!(extract_event_payload(&bad), None);

    assert_eq!(extract_event_payload(&bv("no prefix at all")), None);
}

#[test]
fn store_persists_idempotently() {
    let mut store = EventStore::new();
    let payload = market_payload(9, 10, 11);
    let reg = registry();
    let event = match decode_event(&reg, &payload) {
        DecodeOutcome::Decoded(e) => e,
        _ => panic!("expected an event"),
    };
    let sig = bv("sig-one");
    assert_eq!(store.persist(&sig, 42, &event), IngestOutcome::Persisted);
    assert_eq!(store.persist(&sig, 42, &event), IngestOutcome::DuplicateIgnored);
    assert_eq!(store.market_rows.len(), 1);
    assert_eq!(store.market_rows[0].signature, sig);
    assert_eq!(store.market_rows[0].slot, 42);
    assert_eq!(store.market_rows[0].event.market_id, 9);
}

#[test]
fn store_keys_kinds_independently() {
    let mut store = EventStore::new();
    let reg = registry();
    let market = match decode_event(&reg, &market_payload(1, 2, 3)) {
        DecodeOutcome::Decoded(e) => e,
        _ => panic!("expected an event"),
    };
    let close = match decode_event(&reg, &close_payload([1u8; 32], [1, 2, 3, 4, 5, 6, 7], 0)) {
        DecodeOutcome::Decoded(e) => e,
        _ => panic!("expected an event"),
    };
    let sig = bv("shared-signature");
    assert_eq!(store.persist(&sig, 1, &market), IngestOutcome::Persisted);
    assert_eq!(store.persist(&sig, 1, &close), IngestOutcome::Persisted);
    assert_eq!(store.persist(&sig, 1, &market), IngestOutcome::DuplicateIgnored);
    assert_eq!(store.market_rows.len(), 1);
    assert_eq!(store.close_rows.len(), 1);
}

#[test]
fn unknown_discriminator_logged_once() {
    let mut stats = IngestStats::new(0);
    let mut payload = vec![8u8, 7, 6, 5, 4, 3, 2, 1];
    payload.extend_from_slice(&[0; 4]);
    assert!(stats.record_unknown_discriminator(&payload));
    assert!(!stats.record_unknown_discriminator(&payload));
    assert_eq!(stats.unknown_discriminators.len(), 1);

    // Too short to hold a discriminator: never remembered.
    let short = vec![1u8, 2, 3];
    assert!(!stats.record_unknown_discriminator(&short));
    assert_eq!(stats.unknown_discriminators.len(), 1);
}

#[test]
fn pipeline_counts_unknown_and_decode_errors() {
    let reg = registry();
    let target = bv(TARGET);
    let unknown_payload = vec![9u8; 12];
    let truncated = {
        let mut p = market_key();
        p.push(1);
        p
    };
    let logs = vec![
        bv(&format!("Program {} invoke [1]", TARGET)),
        data_line(&unknown_payload),
        data_line(&unknown_payload),
        data_line(&truncated),
        bv("Program data: @@@@"),
        bv("Program log: plain words, no payload"),
        bv(&format!("Program {} success", TARGET)),
    ];
    let mut stats = IngestStats::new(0);
    let (events, warnings) = parse_events_from_logs(&reg, &target, &logs, &mut stats);
    assert!(events.is_empty());
    assert_eq!(warnings, 0);
    assert_eq!(stats.decode_errors, 1);
    assert_eq!(stats.unknown_discriminators.len(), 1);
}

#[test]
fn scenario_market_update_notification_persists_once() {
    let reg = registry();
    let target = bv(TARGET);
    let payload = market_payload(5, 777, 888);
    let logs = vec![
        bv(&format!("Program {} invoke [1]", TARGET)),
        data_line(&payload),
        bv(&format!("Program {} success", TARGET)),
    ];
    let n = notification(1234, "sig-market", logs);
    let mut store = EventStore::new();
    let mut stats = IngestStats::new(10);
    let (outcomes, warnings) =
        handle_logs_notification(&mut store, &reg, &target, &n, &mut stats, 11);
    assert_eq!(outcomes, vec![IngestOutcome::Persisted]);
    assert_eq!(warnings, 0);
    assert_eq!(store.market_rows.len(), 1);
    assert_eq!(store.market_rows[0].event.market_id, 5);
    assert_eq!(store.market_rows[0].event.base_flow, 777);
    assert_eq!(store.market_rows[0].event.quote_flow, 888);
    assert_eq!(store.market_rows[0].slot, 1234);
    assert_eq!(store.market_rows[0].signature, bv("sig-market"));
    assert_eq!(stats.market_events, 1);
    assert_eq!(stats.last_market_at, Some(11));
}

#[test]
fn scenario_duplicate_delivery_ignored_but_observed() {
    let reg = registry();
    let target = bv(TARGET);
    let payload = market_payload(5, 777, 888);
    let logs = vec![
        bv(&format!("Program {} invoke [1]", TARGET)),
        data_line(&payload),
        bv(&format!("Program {} success", TARGET)),
    ];
    let mut store = EventStore::new();
    let mut stats = IngestStats::new(0);
    for delivery in 0..2 {
        let n = notification(1234, "sig-dup", logs.clone());
        let (outcomes, _) =
            handle_logs_notification(&mut store, &reg, &target, &n, &mut stats, delivery);
        if delivery == 0 {
            assert_eq!(outcomes, vec![IngestOutcome::Persisted]);
        } else {
            assert_eq!(outcomes, vec![IngestOutcome::DuplicateIgnored]);
        }
    }
    // Both deliveries were observed; only one row exists.
    assert_eq!(stats.market_events, 2);
    assert_eq!(store.market_rows.len(), 1);
}
