//! The life of one viewer connection on the hub, as a state machine: the
//! caller hands it each event (registration answer, heartbeat tick, control
//! frame, hub broadcast, end of the handler) and performs the action it returns.
//!
//! Times are milliseconds on a monotonic clock.

use vstd::prelude::*;

verus! {

/// Interval between two heartbeat ticks.
pub const HEARTBEAT_INTERVAL_MS: u64 = 1000;

/// Longest silence from the peer before the connection is given up.
pub const CLIENT_TIMEOUT_MS: u64 = 10_000;

/// Where a connection stands. Registration moves it straight to `Active`.
#[derive(Clone, Copy, Debug, PartialEq, Eq, Structural)]
pub enum Phase {
    /// Accepted, waiting for the hub to hand out an id.
    Connecting,
    /// Registered: relaying broadcasts and supervising the peer.
    Active,
    /// Being shut down; the hub still holds its id.
    Closing,
    /// Finished; the hub no longer holds its id.
    Terminated,
}

/// What happens to a connection.
#[derive(Clone, Copy, Debug, PartialEq, Eq, Structural)]
pub enum ViewerEvent {
    /// The hub registered the connection under `id`.
    Registered { id: usize, now: u64 },
    /// The hub could not be reached.
    RegistrationFailed,
    /// The heartbeat timer fired.
    Tick { now: u64 },
    /// The peer sent a ping.
    Ping { now: u64 },
    /// The peer sent a pong.
    Pong { now: u64 },
    /// The peer sent a close frame.
    PeerClosed,
    /// The peer's stream failed.
    StreamError,
    /// The hub broadcast a message.
    Broadcast,
    /// The handler is stopping.
    Stopped,
}

/// What the caller must do after an event.
#[derive(Clone, Copy, Debug, PartialEq, Eq, Structural)]
pub enum ViewerAction {
    Nothing,
    /// Send a ping to the peer.
    SendPing,
    /// Answer the peer's ping.
    SendPong,
    /// Write the broadcast message to the peer.
    Forward,
    /// Stop the handler and close the socket.
    Close,
    /// Tell the hub to drop `id`, then release the socket.
    Deregister { id: usize },
}

/// The state of one viewer connection.
#[derive(Clone, Copy, Debug, PartialEq, Eq, Structural)]
pub struct ViewerConnection {
    pub phase: Phase,
    /// The id the hub handed out; 0 before registration.
    pub id: usize,
    /// When the peer was last heard from.
    pub last_heartbeat: u64,
}

/// Time from `since` to `now`; none when the clock reads earlier.
pub open spec fn elapsed(since: u64, now: u64) -> int {
    if now >= since {
        now - since
    } else {
        0
    }
}

/// Whether a peer last heard from at `since` has been silent too long at `now`.
pub open spec fn timed_out(since: u64, now: u64) -> bool {
    elapsed(since, now) > CLIENT_TIMEOUT_MS
}

/// The state a connection moves to on `e`, and the action it asks for.
pub open spec fn next(s: ViewerConnection, e: ViewerEvent) -> (ViewerConnection, ViewerAction) {
    match s.phase {
        Phase::Connecting => match e {
            ViewerEvent::Registered { id, now } => (
                ViewerConnection { phase: Phase::Active, id, last_heartbeat: now },
                ViewerAction::Nothing,
            ),
            ViewerEvent::RegistrationFailed => (
                ViewerConnection { phase: Phase::Terminated, ..s },
                ViewerAction::Close,
            ),
            ViewerEvent::Stopped => (
                ViewerConnection { phase: Phase::Terminated, ..s },
                ViewerAction::Nothing,
            ),
            _ => (s, ViewerAction::Nothing),
        },
        Phase::Active => match e {
            ViewerEvent::Tick { now } => if timed_out(s.last_heartbeat, now) {
                (ViewerConnection { phase: Phase::Closing, ..s }, ViewerAction::Close)
            } else {
                (s, ViewerAction::SendPing)
            },
            ViewerEvent::Ping { now } => (
                ViewerConnection { last_heartbeat: now, ..s },
                ViewerAction::SendPong,
            ),
            ViewerEvent::Pong { now } => (
                ViewerConnection { last_heartbeat: now, ..s },
                ViewerAction::Nothing,
            ),
            ViewerEvent::PeerClosed | ViewerEvent::StreamError => (
                ViewerConnection { phase: Phase::Closing, ..s },
                ViewerAction::Close,
            ),
            ViewerEvent::Broadcast => (s, ViewerAction::Forward),
            ViewerEvent::Stopped => (
                ViewerConnection { phase: Phase::Terminated, ..s },
                ViewerAction::Deregister { id: s.id },
            ),
            _ => (s, ViewerAction::Nothing),
        },
        Phase::Closing => match e {
            ViewerEvent::Stopped => (
                ViewerConnection { phase: Phase::Terminated, ..s },
                ViewerAction::Deregister { id: s.id },
            ),
            _ => (s, ViewerAction::Nothing),
        },
        Phase::Terminated => (s, ViewerAction::Nothing),
    }
}

/// The state after a run of events.
pub open spec fn run(s: ViewerConnection, evs: Seq<ViewerEvent>) -> ViewerConnection
    decreases evs.len(),
{
    if evs.len() == 0 {
        s
    } else {
        run(next(s, evs[0]).0, evs.drop_first())
    }
}

/// How many times a run of events asks to deregister.
pub open spec fn deregistrations(s: ViewerConnection, evs: Seq<ViewerEvent>) -> nat
    decreases evs.len(),
{
    if evs.len() == 0 {
        0
    } else {
        let (s1, a) = next(s, evs[0]);
        (if a is Deregister { 1nat } else { 0nat }) + deregistrations(s1, evs.drop_first())
    }
}

/// Whether the hub holds this connection's id.
pub open spec fn holds_id(s: ViewerConnection) -> bool {
    s.phase == Phase::Active || s.phase == Phase::Closing
}

impl ViewerConnection {
    /// A connection just accepted.
    pub fn new(now: u64) -> (r: Self)
        ensures
            r == (ViewerConnection { phase: Phase::Connecting, id: 0, last_heartbeat: now }),
    {
        ViewerConnection { phase: Phase::Connecting, id: 0, last_heartbeat: now }
    }

    /// Moves the connection on by one event and returns what the caller must do.
    pub fn step(&mut self, e: ViewerEvent) -> (a: ViewerAction)
        ensures
            (*final(self), a) == next(*old(self), e),
    {
        match self.phase {
            Phase::Connecting => match e {
                ViewerEvent::Registered { id, now } => {
                    self.phase = Phase::Active;
                    self.id = id;
                    self.last_heartbeat = now;
                    ViewerAction::Nothing
                },
                ViewerEvent::RegistrationFailed => {
                    self.phase = Phase::Terminated;
                    ViewerAction::Close
                },
                ViewerEvent::Stopped => {
                    self.phase = Phase::Terminated;
                    ViewerAction::Nothing
                },
                _ => ViewerAction::Nothing,
            },
            Phase::Active => match e {
                ViewerEvent::Tick { now } => {
                    let silent = if now >= self.last_heartbeat {
                        now - self.last_heartbeat
                    } else {
                        0
                    };
                    if silent > CLIENT_TIMEOUT_MS {
                        self.phase = Phase::Closing;
                        ViewerAction::Close
                    } else {
                        ViewerAction::SendPing
                    }
                },
                ViewerEvent::Ping { now } => {
                    self.last_heartbeat = now;
                    ViewerAction::SendPong
                },
                ViewerEvent::Pong { now } => {
                    self.last_heartbeat = now;
                    ViewerAction::Nothing
                },
                ViewerEvent::PeerClosed | ViewerEvent::StreamError => {
                    self.phase = Phase::Closing;
                    ViewerAction::Close
                },
                ViewerEvent::Broadcast => ViewerAction::Forward,
                ViewerEvent::Stopped => {
                    self.phase = Phase::Terminated;
                    ViewerAction::Deregister { id: self.id }
                },
                _ => ViewerAction::Nothing,
            },
            Phase::Closing => match e {
                ViewerEvent::Stopped => {
                    self.phase = Phase::Terminated;
                    ViewerAction::Deregister { id: self.id }
                },
                _ => ViewerAction::Nothing,
            },
            Phase::Terminated => ViewerAction::Nothing,
        }
    }
}

/// Nothing moves a terminated connection, and it never asks to deregister.
pub proof fn lemma_terminated_is_final(s: ViewerConnection, evs: Seq<ViewerEvent>)
    requires
        s.phase == Phase::Terminated,
    ensures
        run(s, evs) == s,
        deregistrations(s, evs) == 0,
    decreases evs.len(),
{
    if evs.len() > 0 {
        lemma_terminated_is_final(next(s, evs[0]).0, evs.drop_first());
    }
}

/// Whatever events come, a connection asks to deregister at most once; one
/// that the hub holds asks exactly once by the time it has terminated, and
/// asks only then.
pub proof fn lemma_deregister_once(s: ViewerConnection, evs: Seq<ViewerEvent>)
    ensures
        deregistrations(s, evs) <= 1,
        holds_id(s) && run(s, evs).phase == Phase::Terminated ==> deregistrations(s, evs) == 1,
        deregistrations(s, evs) == 1 ==> run(s, evs).phase == Phase::Terminated,
    decreases evs.len(),
{
    if evs.len() > 0 {
        let (s1, a) = next(s, evs[0]);
        let rest = evs.drop_first();
        lemma_deregister_once(s1, rest);
        if a is Deregister {
            lemma_terminated_is_final(s1, rest);
        } else if s.phase == Phase::Terminated {
            lemma_terminated_is_final(s, evs);
        }
    }
}

/// The heartbeat tick of an active connection: silence of more than the timeout
/// closes it, anything shorter sends a ping and keeps it as it is.
pub proof fn lemma_liveness(s: ViewerConnection, now: u64)
    requires
        s.phase == Phase::Active,
    ensures
        timed_out(s.last_heartbeat, now) ==> next(s, ViewerEvent::Tick { now }) == (
            ViewerConnection { phase: Phase::Closing, ..s },
            ViewerAction::Close,
        ),
        !timed_out(s.last_heartbeat, now) ==> next(s, ViewerEvent::Tick { now }) == (s, ViewerAction::SendPing),
        next(ViewerConnection { phase: Phase::Closing, ..s }, ViewerEvent::Stopped).1 == (ViewerAction::Deregister { id: s.id }),
{
}

} // verus!
