use twob_keepers::health::{hex_discriminator, IngestStats};
use twob_keepers::runner::{FeedEvent, RunnerAction, RunnerPhase, RunnerState};
use twob_keepers::sat_inc;

#[test]
fn scenario_stream_close_reconnects_after_floor_delay() {
    let mut st = RunnerState::new();
    assert_eq!(st.phase, RunnerPhase::Disconnected);
    assert_eq!(st.step(FeedEvent::Start), RunnerAction::Connect);
    assert_eq!(st.phase, RunnerPhase::Connecting);
    assert_eq!(st.step(FeedEvent::Connected), RunnerAction::NoAction);
    assert_eq!(st.phase, RunnerPhase::Subscribed);

    // The feed closes mid-operation: wait one time unit, then reconnect,
    // with no operator action.
    assert_eq!(st.step(FeedEvent::StreamClosed), RunnerAction::WaitBackoff(1));
    assert_eq!(st.phase, RunnerPhase::Disconnected);
    assert_eq!(st.step(FeedEvent::BackoffElapsed), RunnerAction::Connect);
    assert_eq!(st.phase, RunnerPhase::Connecting);
    assert_eq!(st.step(FeedEvent::Connected), RunnerAction::NoAction);
    assert_eq!(st.phase, RunnerPhase::Subscribed);
}

#[test]
fn backoff_doubles_to_cap_and_resets_on_success() {
    let mut st = RunnerState::new();
    st.step(FeedEvent::Start);
    let mut waits = Vec::new();
    for _ in 0..7 {
        match st.step(FeedEvent::ConnectFailed) {
            RunnerAction::WaitBackoff(w) => waits.push(w),
            other => panic!("expected a backoff wait, got {:?}", other),
        }
        st.step(FeedEvent::BackoffElapsed);
    }
    assert_eq!(waits, vec![1, 2, 4, 8, 16, 30, 30]);

    // A successful subscription resets the delay to the floor.
    st.step(FeedEvent::Connected);
    assert_eq!(st.phase, RunnerPhase::Subscribed);
    assert_eq!(st.step(FeedEvent::StreamClosed), RunnerAction::WaitBackoff(1));
}

#[test]
fn mismatched_events_change_nothing() {
    let mut st = RunnerState::new();
    assert_eq!(st.step(FeedEvent::NotificationArrived), RunnerAction::NoAction);
    assert_eq!(st.step(FeedEvent::HealthTickDue), RunnerAction::NoAction);
    assert_eq!(st.phase, RunnerPhase::Disconnected);
    st.step(FeedEvent::Start);
    assert_eq!(st.step(FeedEvent::StreamClosed), RunnerAction::NoAction);
    assert_eq!(st.phase, RunnerPhase::Connecting);
}

#[test]
fn subscribed_runner_processes_and_reports() {
    let mut st = RunnerState::new();
    st.step(FeedEvent::Start);
    st.step(FeedEvent::Connected);
    assert_eq!(st.step(FeedEvent::NotificationArrived), RunnerAction::ProcessNotification);
    assert_eq!(st.step(FeedEvent::HealthTickDue), RunnerAction::EmitHealth);
    assert_eq!(st.phase, RunnerPhase::Subscribed);
}

#[test]
fn snapshot_reports_counters_and_ages() {
    let mut stats = IngestStats::new(100);
    stats.record_market_event(150);
    stats.record_market_event(160);
    stats.record_close_event(170);
    stats.record_decode_error();
    stats.record_db_error();

    let snap = stats.snapshot(200);
    assert_eq!(snap.uptime, 100);
    assert_eq!(snap.market_events, 2);
    assert_eq!(snap.close_events, 1);
    assert_eq!(snap.decode_errors, 1);
    assert_eq!(snap.db_errors, 1);
    assert_eq!(snap.unknown_discriminators, 0);
    assert_eq!(snap.last_market_ago, Some(40));
    assert_eq!(snap.last_close_ago, Some(30));

    let fresh = IngestStats::new(100);
    let snap = fresh.snapshot(90);
    assert_eq!(snap.uptime, 0);
    assert_eq!(snap.last_market_ago, None);
    assert_eq!(snap.last_close_ago, None);
}

#[test]
fn counters_saturate_at_the_top() {
    assert_eq!(sat_inc(0), 1);
    assert_eq!(sat_inc(u64::MAX - 1), u64::MAX);
    assert_eq!(sat_inc(u64::MAX), u64::MAX);
}

#[test]
fn hex_rendering_is_two_lowercase_digits_per_byte() {
    let rendered = hex_discriminator(&vec![0x00, 0x0f, 0xab, 0xff, 0x10]);
    assert_eq!(String::from_utf8(rendered).unwrap(), "000fabff10");
    assert_eq!(hex_discriminator(&Vec::new()), Vec::<u8>::new());
}
