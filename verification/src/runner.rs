//! The subscription runner's control state machine: Disconnected →
//! Connecting → Subscribed, back to Disconnected on any failure or stream
//! close, with an exponential reconnect delay starting at one time unit,
//! doubling per failed attempt and capped at thirty. A successful
//! subscription resets the delay to the floor, the conventional choice.
//! The machine only decides; connecting, waiting and reading the feed are
//! the surrounding loop's work, reported back as events.
use vstd::prelude::*;

verus! {

/// The reconnect delay floor, in time units.
pub const BACKOFF_FLOOR: u64 = 1;

/// The reconnect delay cap, in time units.
pub const BACKOFF_CAP: u64 = 30;

/// Where the runner stands with respect to the feed.
#[derive(Clone, Copy, Debug, PartialEq, Eq, Structural)]
pub enum RunnerPhase {
    Disconnected,
    Connecting,
    Subscribed,
}

/// What the surrounding loop observed since the last step.
#[derive(Clone, Copy, Debug, PartialEq, Eq, Structural)]
pub enum FeedEvent {
    /// The process starts; nothing has been tried yet.
    Start,
    /// The reconnect delay has elapsed.
    BackoffElapsed,
    /// Handshake and filter registration succeeded.
    Connected,
    /// Handshake or filter registration failed.
    ConnectFailed,
    /// One notification arrived on the stream.
    NotificationArrived,
    /// The periodic health timer fired.
    HealthTickDue,
    /// The feed closed the stream or the subscription erred.
    StreamClosed,
}

/// What the surrounding loop must do next.
#[derive(Clone, Copy, Debug, PartialEq, Eq, Structural)]
pub enum RunnerAction {
    /// Nothing; wait for the next event.
    NoAction,
    /// Open the feed connection and register the filter.
    Connect,
    /// Wait the given number of time units, then report `BackoffElapsed`.
    WaitBackoff(u64),
    /// Run the pending notification through the ingestion pipeline.
    ProcessNotification,
    /// Emit a health summary.
    EmitHealth,
}

/// The runner's control state: its phase and the delay the next reconnect
/// wait would take.
#[derive(Clone, Copy, Debug, PartialEq, Eq, Structural)]
pub struct RunnerState {
    pub phase: RunnerPhase,
    pub backoff: u64,
}

impl RunnerState {
    /// The delay always stays between the floor and the cap.
    pub open spec fn wf(self) -> bool {
        BACKOFF_FLOOR <= self.backoff <= BACKOFF_CAP
    }

    /// Freshly started: disconnected, delay at the floor.
    pub fn new() -> (r: RunnerState)
        ensures
            r == (RunnerState { phase: RunnerPhase::Disconnected, backoff: BACKOFF_FLOOR }),
            r.wf(),
    {
        RunnerState { phase: RunnerPhase::Disconnected, backoff: BACKOFF_FLOOR }
    }
}

/// The doubled, capped reconnect delay.
pub open spec fn next_backoff(b: u64) -> u64 {
    if 2 * b <= BACKOFF_CAP {
        (2 * b) as u64
    } else {
        BACKOFF_CAP
    }
}

/// One transition of the state machine.
pub open spec fn step_model(st: RunnerState, ev: FeedEvent) -> (RunnerState, RunnerAction) {
    match (st.phase, ev) {
        (RunnerPhase::Disconnected, FeedEvent::Start) => (
            RunnerState { phase: RunnerPhase::Connecting, ..st },
            RunnerAction::Connect,
        ),
        (RunnerPhase::Disconnected, FeedEvent::BackoffElapsed) => (
            RunnerState { phase: RunnerPhase::Connecting, ..st },
            RunnerAction::Connect,
        ),
        (RunnerPhase::Connecting, FeedEvent::Connected) => (
            RunnerState { phase: RunnerPhase::Subscribed, backoff: BACKOFF_FLOOR },
            RunnerAction::NoAction,
        ),
        (RunnerPhase::Connecting, FeedEvent::ConnectFailed) => (
            RunnerState { phase: RunnerPhase::Disconnected, backoff: next_backoff(st.backoff) },
            RunnerAction::WaitBackoff(st.backoff),
        ),
        (RunnerPhase::Subscribed, FeedEvent::NotificationArrived) => (
            st,
            RunnerAction::ProcessNotification,
        ),
        (RunnerPhase::Subscribed, FeedEvent::HealthTickDue) => (st, RunnerAction::EmitHealth),
        (RunnerPhase::Subscribed, FeedEvent::StreamClosed) => (
            RunnerState { phase: RunnerPhase::Disconnected, backoff: next_backoff(st.backoff) },
            RunnerAction::WaitBackoff(st.backoff),
        ),
        _ => (st, RunnerAction::NoAction),
    }
}

impl RunnerState {
    /// Take one event and answer with the new state and the action owed.
    /// Mismatched events (a notification while disconnected, say) change
    /// nothing.
    pub fn step(&mut self, ev: FeedEvent) -> (action: RunnerAction)
        requires
            old(self).wf(),
        ensures
            (*final(self), action) == step_model(*old(self), ev),
            final(self).wf(),
    {
        match (self.phase, ev) {
            (RunnerPhase::Disconnected, FeedEvent::Start) => {
                self.phase = RunnerPhase::Connecting;
                RunnerAction::Connect
            },
            (RunnerPhase::Disconnected, FeedEvent::BackoffElapsed) => {
                self.phase = RunnerPhase::Connecting;
                RunnerAction::Connect
            },
            (RunnerPhase::Connecting, FeedEvent::Connected) => {
                self.phase = RunnerPhase::Subscribed;
                self.backoff = BACKOFF_FLOOR;
                RunnerAction::NoAction
            },
            (RunnerPhase::Connecting, FeedEvent::ConnectFailed) => {
                let wait = self.backoff;
                self.phase = RunnerPhase::Disconnected;
                self.backoff = if self.backoff <= BACKOFF_CAP / 2 {
                    2 * self.backoff
                } else {
                    BACKOFF_CAP
                };
                RunnerAction::WaitBackoff(wait)
            },
            (RunnerPhase::Subscribed, FeedEvent::NotificationArrived) => {
                RunnerAction::ProcessNotification
            },
            (RunnerPhase::Subscribed, FeedEvent::HealthTickDue) => RunnerAction::EmitHealth,
            (RunnerPhase::Subscribed, FeedEvent::StreamClosed) => {
                let wait = self.backoff;
                self.phase = RunnerPhase::Disconnected;
                self.backoff = if self.backoff <= BACKOFF_CAP / 2 {
                    2 * self.backoff
                } else {
                    BACKOFF_CAP
                };
                RunnerAction::WaitBackoff(wait)
            },
            _ => RunnerAction::NoAction,
        }
    }
}

/// Every reachable state keeps the delay within its bounds: stepping a
/// well-formed state, by any event, yields a well-formed state.
pub proof fn lemma_backoff_bounded(st: RunnerState, ev: FeedEvent)
    requires
        st.wf(),
    ensures
        step_model(st, ev).0.wf(),
{
}

/// After the feed closes a fresh subscription, the runner waits exactly the
/// floor delay and then reconnects: self-healing takes one time unit.
pub proof fn lemma_reconnect_after_close(st: RunnerState)
    requires
        st.phase == RunnerPhase::Subscribed,
        st.backoff == BACKOFF_FLOOR,
    ensures
        ({
            let (st1, a1) = step_model(st, FeedEvent::StreamClosed);
            &&& st1.phase == RunnerPhase::Disconnected
            &&& a1 == RunnerAction::WaitBackoff(BACKOFF_FLOOR)
            &&& {
                let (st2, a2) = step_model(st1, FeedEvent::BackoffElapsed);
                st2.phase == RunnerPhase::Connecting && a2 == RunnerAction::Connect
            }
        }),
{
}

} // verus!
