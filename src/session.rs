use vstd::prelude::*;
use crate::backoff::{backoff_secs, calculate_backoff};

verus! {

/// Failed attempts after which a session gives up.
pub const MAX_RETRIES: u32 = 20;

/// Where one broker session stands.
#[derive(Clone, Copy, Debug, PartialEq, Eq, Structural)]
pub enum Phase {
    /// A connection to the broker is being opened.
    Connecting,
    /// The broker acknowledged the connection; subscriptions are being requested.
    Subscribing,
    /// Subscribed; the publish pump runs.
    Connected,
    /// The link was lost; the publish pump is being stopped.
    Disconnected,
    /// Sleeping before the next attempt.
    BackingOff,
    /// Retries are exhausted; the session task ends.
    Failed,
}

/// What the driver of a session observed.
#[derive(Clone, Copy, Debug, PartialEq, Eq, Structural)]
pub enum SessionEvent {
    /// The first poll of the broker event loop yielded a connection acknowledgement.
    ConnAck,
    /// Every topic filter of the configuration has been requested.
    Subscribed,
    /// The broker event loop yielded an error or closed.
    LinkLost,
    /// The publish pump of the lost connection has been stopped.
    PumpStopped,
    /// The backoff sleep is over.
    BackoffElapsed,
}

/// What the driver of a session must do next.
#[derive(Clone, Copy, Debug, PartialEq, Eq, Structural)]
pub enum SessionAction {
    /// Nothing: the event does not apply in the current phase.
    Ignore,
    /// Request every configured topic filter at QoS "at most once".
    Subscribe,
    /// Start the publish pump that drains the session's publish bus.
    StartPump,
    /// Abort the publish pump; messages it had not published may be lost.
    StopPump,
    /// Sleep this many seconds.
    Sleep(u64),
    /// Open a new connection to the broker.
    Connect,
    /// End the session task.
    Exit,
}

/// The decision state of one broker session.
#[derive(Clone, Copy, Debug, PartialEq, Eq, Structural)]
pub struct SessionState {
    pub phase: Phase,
    /// Attempts that failed since the session was last connected.
    pub attempts: u32,
}

impl SessionState {
    /// Attempts stay within the retry bound, a session backs off only while
    /// retries remain, and a connected session has a fresh retry count.
    pub open spec fn wf(&self) -> bool {
        &&& self.attempts <= MAX_RETRIES
        &&& self.phase == Phase::BackingOff ==> self.attempts < MAX_RETRIES
        &&& self.phase == Phase::Connected ==> self.attempts == 0
    }
}

/// The transition of a session on an event, with `topic_count` configured
/// topic filters.
pub open spec fn next(s: SessionState, ev: SessionEvent, topic_count: nat) -> (SessionState, SessionAction) {
    match (s.phase, ev) {
        (Phase::Connecting, SessionEvent::ConnAck) => if topic_count == 0 {
            (SessionState { phase: Phase::Connected, attempts: 0 }, SessionAction::StartPump)
        } else {
            (SessionState { phase: Phase::Subscribing, ..s }, SessionAction::Subscribe)
        },
        (Phase::Subscribing, SessionEvent::Subscribed) => (
            SessionState { phase: Phase::Connected, attempts: 0 },
            SessionAction::StartPump,
        ),
        (Phase::Connecting, SessionEvent::LinkLost)
        | (Phase::Subscribing, SessionEvent::LinkLost)
        | (Phase::Connected, SessionEvent::LinkLost) => (
            SessionState { phase: Phase::Disconnected, ..s },
            SessionAction::StopPump,
        ),
        (Phase::Disconnected, SessionEvent::PumpStopped) => if s.attempts < MAX_RETRIES {
            (
                SessionState { phase: Phase::BackingOff, ..s },
                SessionAction::Sleep(backoff_secs(s.attempts as nat) as u64),
            )
        } else {
            (SessionState { phase: Phase::Failed, ..s }, SessionAction::Exit)
        },
        (Phase::BackingOff, SessionEvent::BackoffElapsed) => (
            SessionState { phase: Phase::Connecting, attempts: (s.attempts + 1) as u32 },
            SessionAction::Connect,
        ),
        _ => (s, SessionAction::Ignore),
    }
}

impl SessionState {
    /// A fresh session, about to open its first connection.
    pub fn new() -> (s: SessionState)
        ensures
            s.phase == Phase::Connecting,
            s.attempts == 0,
            s.wf(),
    {
        SessionState { phase: Phase::Connecting, attempts: 0 }
    }

    /// Applies one event and tells the driver what to do.
    pub fn step(&mut self, ev: SessionEvent, topic_count: usize) -> (action: SessionAction)
        requires
            old(self).wf(),
        ensures
            (*final(self), action) == next(*old(self), ev, topic_count as nat),
            final(self).wf(),
    {
        let s = *self;
        let (n, a) = match (s.phase, ev) {
            (Phase::Connecting, SessionEvent::ConnAck) => if topic_count == 0 {
                (SessionState { phase: Phase::Connected, attempts: 0 }, SessionAction::StartPump)
            } else {
                (SessionState { phase: Phase::Subscribing, attempts: s.attempts }, SessionAction::Subscribe)
            },
            (Phase::Subscribing, SessionEvent::Subscribed) => (
                SessionState { phase: Phase::Connected, attempts: 0 },
                SessionAction::StartPump,
            ),
            (Phase::Connecting, SessionEvent::LinkLost)
            | (Phase::Subscribing, SessionEvent::LinkLost)
            | (Phase::Connected, SessionEvent::LinkLost) => (
                SessionState { phase: Phase::Disconnected, attempts: s.attempts },
                SessionAction::StopPump,
            ),
            (Phase::Disconnected, SessionEvent::PumpStopped) => if s.attempts < MAX_RETRIES {
                let secs = calculate_backoff(s.attempts);
                (SessionState { phase: Phase::BackingOff, attempts: s.attempts }, SessionAction::Sleep(secs))
            } else {
                (SessionState { phase: Phase::Failed, attempts: s.attempts }, SessionAction::Exit)
            },
            (Phase::BackingOff, SessionEvent::BackoffElapsed) => (
                SessionState { phase: Phase::Connecting, attempts: s.attempts + 1 },
                SessionAction::Connect,
            ),
            _ => (s, SessionAction::Ignore),
        };
        *self = n;
        a
    }

    /// Whether the session task must end.
    pub fn is_failed(&self) -> (r: bool)
        ensures
            r == (self.phase == Phase::Failed),
    {
        self.phase == Phase::Failed
    }
}

/// A session entering `Connected` has a fresh retry count, and it keeps it
/// until its link is lost.
pub proof fn lemma_connected_resets_attempts(s: SessionState, ev: SessionEvent, topic_count: nat)
    requires
        s.wf(),
    ensures
        next(s, ev, topic_count).0.phase == Phase::Connected ==> next(s, ev, topic_count).0.attempts == 0,
        s.phase == Phase::Connected && ev != SessionEvent::LinkLost ==> next(s, ev, topic_count).0 == s,
{
}

/// With no topic filter configured, an acknowledged connection is connected
/// at once, and no event ever asks for a subscription.
pub proof fn lemma_no_topics_no_subscribe(s: SessionState, ev: SessionEvent)
    ensures
        next(s, ev, 0).1 != SessionAction::Subscribe,
        s.phase == Phase::Connecting && ev == SessionEvent::ConnAck ==> next(s, ev, 0).0.phase
            == Phase::Connected,
{
}

/// One failed attempt: the link is lost, the pump stopped, the backoff slept.
pub open spec fn failed_attempt(s: SessionState, topic_count: nat) -> SessionState {
    let lost = next(s, SessionEvent::LinkLost, topic_count).0;
    let waiting = next(lost, SessionEvent::PumpStopped, topic_count).0;
    next(waiting, SessionEvent::BackoffElapsed, topic_count).0
}

/// A fresh session after `k` consecutive failed attempts.
pub open spec fn after_failures(k: nat, topic_count: nat) -> SessionState
    decreases k,
{
    if k == 0 {
        SessionState { phase: Phase::Connecting, attempts: 0 }
    } else {
        failed_attempt(after_failures((k - 1) as nat, topic_count), topic_count)
    }
}

/// The decision taken when the link is lost from state `s`: what the session
/// does once its pump is stopped.
pub open spec fn on_link_lost(s: SessionState, topic_count: nat) -> (SessionState, SessionAction) {
    next(next(s, SessionEvent::LinkLost, topic_count).0, SessionEvent::PumpStopped, topic_count)
}

/// After `k` consecutive failures a fresh session retries with `k` recorded
/// attempts; failure number `k + 1` sleeps `backoff_secs(k)` while fewer than
/// the retry bound have failed, and failure number `MAX_RETRIES + 1` ends the
/// session.
pub proof fn lemma_consecutive_failures(k: nat, topic_count: nat)
    ensures
        k <= MAX_RETRIES ==> after_failures(k, topic_count) == (SessionState {
            phase: Phase::Connecting,
            attempts: k as u32,
        }),
        k < MAX_RETRIES ==> on_link_lost(after_failures(k, topic_count), topic_count).1
            == SessionAction::Sleep(backoff_secs(k) as u64),
        k == MAX_RETRIES ==> on_link_lost(after_failures(k, topic_count), topic_count) == (
        SessionState { phase: Phase::Failed, attempts: MAX_RETRIES }, SessionAction::Exit),
    decreases k,
{
    if k > 0 {
        lemma_consecutive_failures((k - 1) as nat, topic_count);
    }
}

/// The publish pump starts only on entering `Connected` and is stopped on
/// leaving it: a message put on the bus while the session is not connected
/// stays there until the next connection.
pub proof fn lemma_pump_only_while_connected(s: SessionState, ev: SessionEvent, topic_count: nat)
    requires
        s.wf(),
    ensures
        next(s, ev, topic_count).1 == SessionAction::StartPump ==> s.phase != Phase::Connected
            && next(s, ev, topic_count).0.phase == Phase::Connected,
        s.phase == Phase::Connected && next(s, ev, topic_count).0.phase != Phase::Connected ==> next(
            s,
            ev,
            topic_count,
        ).1 == SessionAction::StopPump,
        s.phase != Phase::Connected && next(s, ev, topic_count).0.phase == Phase::Connected ==> next(
            s,
            ev,
            topic_count,
        ).1 == SessionAction::StartPump,
{
}

} // verus!
