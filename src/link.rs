//! The connection to the collector: connect, back off and retry without end,
//! and serve batches while connected.
use vstd::prelude::*;

verus! {

/// Wait after a failed connect attempt, in milliseconds.
pub const BACKOFF_MS: u64 = 1_000;

/// Bound on one connect attempt and on each socket operation, in milliseconds.
pub const SOCKET_TIMEOUT_MS: u64 = 10_000;

#[derive(Clone, Copy, Debug, PartialEq, Eq, Structural)]
pub enum LinkState {
    /// No connection: attempt one.
    Connecting,
    /// The connection failed a write: close it, then attempt a new one.
    Resetting,
    /// A connect attempt failed: wait before the next.
    BackingOff,
    /// Connected: collect and send batches.
    Up,
}

/// What happened since the last action.
#[derive(Clone, Copy, Debug, PartialEq, Eq, Structural)]
pub enum LinkEvent {
    Connected,
    ConnectFailed,
    BackoffElapsed,
    Sent,
    SendFailed,
    /// The peer closed the connection.
    Closed,
}

/// What to do next.
#[derive(Clone, Copy, Debug, PartialEq, Eq, Structural)]
pub enum LinkAction {
    Connect,
    /// Close the broken connection, then connect.
    Reset,
    /// Wait this many milliseconds.
    Wait(u64),
    /// Collect one batch and send it.
    Serve,
}

pub open spec fn action_of(s: LinkState) -> LinkAction {
    match s {
        LinkState::Connecting => LinkAction::Connect,
        LinkState::Resetting => LinkAction::Reset,
        LinkState::BackingOff => LinkAction::Wait(BACKOFF_MS),
        LinkState::Up => LinkAction::Serve,
    }
}

/// The state after `e` in `s`. A failed write drops the connection, so a
/// half-broken link is never kept. An event that cannot happen in `s`
/// changes nothing.
pub open spec fn next_state(s: LinkState, e: LinkEvent) -> LinkState {
    match (s, e) {
        (LinkState::Connecting, LinkEvent::Connected) => LinkState::Up,
        (LinkState::Resetting, LinkEvent::Connected) => LinkState::Up,
        (LinkState::Connecting, LinkEvent::ConnectFailed) => LinkState::BackingOff,
        (LinkState::Resetting, LinkEvent::ConnectFailed) => LinkState::BackingOff,
        (LinkState::BackingOff, LinkEvent::BackoffElapsed) => LinkState::Connecting,
        (LinkState::Up, LinkEvent::Sent) => LinkState::Up,
        (LinkState::Up, LinkEvent::SendFailed) => LinkState::Resetting,
        (LinkState::Up, LinkEvent::Closed) => LinkState::Connecting,
        _ => s,
    }
}

pub struct Link {
    pub state: LinkState,
}

impl Link {
    /// A link that has not connected yet.
    pub fn new() -> (r: Self)
        ensures
            r.state == LinkState::Connecting,
    {
        Link { state: LinkState::Connecting }
    }

    /// The action the current state calls for.
    pub fn action(&self) -> (r: LinkAction)
        ensures
            r == action_of(self.state),
    {
        match self.state {
            LinkState::Connecting => LinkAction::Connect,
            LinkState::Resetting => LinkAction::Reset,
            LinkState::BackingOff => LinkAction::Wait(BACKOFF_MS),
            LinkState::Up => LinkAction::Serve,
        }
    }

    /// Takes an event and returns the next action.
    pub fn step(&mut self, e: LinkEvent) -> (r: LinkAction)
        ensures
            final(self).state == next_state(old(self).state, e),
            r == action_of(final(self).state),
    {
        self.state = match (self.state, e) {
            (LinkState::Connecting, LinkEvent::Connected) => LinkState::Up,
            (LinkState::Resetting, LinkEvent::Connected) => LinkState::Up,
            (LinkState::Connecting, LinkEvent::ConnectFailed) => LinkState::BackingOff,
            (LinkState::Resetting, LinkEvent::ConnectFailed) => LinkState::BackingOff,
            (LinkState::BackingOff, LinkEvent::BackoffElapsed) => LinkState::Connecting,
            (LinkState::Up, LinkEvent::Sent) => LinkState::Up,
            (LinkState::Up, LinkEvent::SendFailed) => LinkState::Resetting,
            (LinkState::Up, LinkEvent::Closed) => LinkState::Connecting,
            (s, _) => s,
        };
        self.action()
    }
}

/// The state after `n` rounds of a failed attempt followed by its wait.
pub open spec fn after_failures(s: LinkState, n: nat) -> LinkState
    decreases n,
{
    if n == 0 {
        s
    } else {
        next_state(
            next_state(after_failures(s, (n - 1) as nat), LinkEvent::ConnectFailed),
            LinkEvent::BackoffElapsed,
        )
    }
}

/// However many connect attempts fail in a row, each failure is followed by a
/// wait of `BACKOFF_MS` and then by another attempt: the link never gives up.
pub proof fn lemma_retries_forever(n: nat)
    ensures
        after_failures(LinkState::Connecting, n) == LinkState::Connecting,
        action_of(next_state(LinkState::Connecting, LinkEvent::ConnectFailed)) == LinkAction::Wait(
            BACKOFF_MS,
        ),
        action_of(next_state(LinkState::BackingOff, LinkEvent::BackoffElapsed))
            == LinkAction::Connect,
    decreases n,
{
    if n > 0 {
        lemma_retries_forever((n - 1) as nat);
    }
}

} // verus!
