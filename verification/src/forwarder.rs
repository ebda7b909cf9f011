//! One connection, from accepted to closed.
//!
//! A connection is a small state machine. The driver reports an [`Event`],
//! [`Connection::step`] moves the connection on and answers with the
//! [`Action`] to perform next. The driver owns the sockets; the connection
//! only decides.

use crate::endpoint::Endpoint;
use vstd::prelude::*;

verus! {

/// Where a connection stands.
#[derive(Clone, Copy, Debug, PartialEq, Eq, Structural)]
pub enum Phase {
    /// The inbound connection has been accepted and nothing was done for it yet.
    Accepted,
    /// The connection to the upstream is being opened.
    Connecting,
    /// Both legs are open and bytes are relayed in both directions.
    Relaying,
    /// The connection is over and its sockets are released.
    Closed,
}

/// Why a connection ended without success.
#[derive(Clone, Copy, Debug, PartialEq, Eq, Structural)]
pub enum ForwardError {
    /// The upstream could not be reached. No byte was relayed.
    ConnectFailed,
    /// A read or a write failed on either socket while relaying.
    CopyFailed,
}

/// What the driver reports to a connection.
#[derive(Clone, Copy, Debug, PartialEq, Eq, Structural)]
pub enum Event {
    /// The task that serves the connection has begun.
    Started,
    /// The connection to the upstream is open.
    Connected,
    /// The connection to the upstream could not be opened.
    ConnectFailed,
    /// The relay came to a clean end of stream. Whether that is when the
    /// first direction has ended or when both have is for the relay of the
    /// driver to say.
    StreamEnded,
    /// A read or a write of the relay failed.
    TransferFailed,
}

/// What the driver is to do next.
#[derive(Clone, Copy, Debug, PartialEq, Eq)]
pub enum Action {
    /// Open a connection to `target`, then report [`Event::Connected`] or
    /// [`Event::ConnectFailed`].
    Connect { target: Endpoint },
    /// Relay bytes in both directions at once, then report
    /// [`Event::StreamEnded`] or [`Event::TransferFailed`].
    Relay,
    /// Release every socket of the connection and report `result` to whoever
    /// started it.
    Close { result: Result<(), ForwardError> },
}

/// One inbound connection and the upstream it is forwarded to.
#[derive(Clone, Copy, Debug, PartialEq, Eq, Structural)]
pub struct Connection {
    pub phase: Phase,
    pub upstream: Endpoint,
}

impl Phase {
    /// Whether `event` is one that this phase waits for.
    pub open spec fn admits(self, event: Event) -> bool {
        match (self, event) {
            (Phase::Accepted, Event::Started) => true,
            (Phase::Connecting, Event::Connected) => true,
            (Phase::Connecting, Event::ConnectFailed) => true,
            (Phase::Relaying, Event::StreamEnded) => true,
            (Phase::Relaying, Event::TransferFailed) => true,
            _ => false,
        }
    }

    /// The phase that follows this one on `event`. An event that the phase
    /// does not wait for leaves it as it is.
    pub open spec fn after(self, event: Event) -> Phase {
        match (self, event) {
            (Phase::Accepted, Event::Started) => Phase::Connecting,
            (Phase::Connecting, Event::Connected) => Phase::Relaying,
            (Phase::Connecting, Event::ConnectFailed) => Phase::Closed,
            (Phase::Relaying, Event::StreamEnded) => Phase::Closed,
            (Phase::Relaying, Event::TransferFailed) => Phase::Closed,
            _ => self,
        }
    }

    /// How far a connection in this phase has come.
    pub open spec fn rank(self) -> nat {
        match self {
            Phase::Accepted => 0,
            Phase::Connecting => 1,
            Phase::Relaying => 2,
            Phase::Closed => 3,
        }
    }

    /// Whether the driver holds the inbound socket in this phase.
    pub open spec fn holds_inbound(self) -> bool {
        self != Phase::Closed
    }

    /// Whether the driver holds the outbound socket in this phase.
    pub open spec fn holds_outbound(self) -> bool {
        self == Phase::Relaying
    }
}

impl ForwardError {
    /// The characters of the text that describes this error.
    pub open spec fn text(&self) -> Seq<char> {
        match self {
            ForwardError::ConnectFailed => "connect failed"@,
            ForwardError::CopyFailed => "copy failed"@,
        }
    }

    /// The text of this error, as it is logged.
    pub fn description(&self) -> (text: &'static str)
        ensures
            text@ == self.text(),
    {
        match self {
            ForwardError::ConnectFailed => "connect failed",
            ForwardError::CopyFailed => "copy failed",
        }
    }
}

impl Connection {
    /// The connection after `event`: its phase moves on, its upstream stays.
    pub open spec fn next(self, event: Event) -> Connection {
        Connection { phase: self.phase.after(event), upstream: self.upstream }
    }

    /// What the connection asks of the driver on `event`, or `None` where the
    /// phase does not wait for that event.
    pub open spec fn action(self, event: Event) -> Option<Action> {
        match (self.phase, event) {
            (Phase::Accepted, Event::Started) => Some(Action::Connect { target: self.upstream }),
            (Phase::Connecting, Event::Connected) => Some(Action::Relay),
            (Phase::Connecting, Event::ConnectFailed) => Some(
                Action::Close { result: Err(ForwardError::ConnectFailed) },
            ),
            (Phase::Relaying, Event::StreamEnded) => Some(Action::Close { result: Ok(()) }),
            (Phase::Relaying, Event::TransferFailed) => Some(
                Action::Close { result: Err(ForwardError::CopyFailed) },
            ),
            _ => None,
        }
    }

    /// A connection that was just accepted and is to be forwarded to
    /// `upstream`.
    pub fn new(upstream: Endpoint) -> (connection: Connection)
        ensures
            connection == (Connection { phase: Phase::Accepted, upstream }),
    {
        Connection { phase: Phase::Accepted, upstream }
    }

    /// Whether the connection is over.
    pub fn is_closed(&self) -> (closed: bool)
        ensures
            closed == (self.phase == Phase::Closed),
    {
        self.phase == Phase::Closed
    }

    /// Takes in `event` and says what to do next.
    ///
    /// Where the phase waits for `event`, the connection moves on and the
    /// action for the driver is returned. Any other event is ignored: the
    /// connection stays as it is and `None` is returned. A closed connection
    /// ignores every event.
    pub fn step(&mut self, event: Event) -> (action: Option<Action>)
        ensures
            *final(self) == old(self).next(event),
            action == old(self).action(event),
            action.is_some() <==> old(self).phase.admits(event),
    {
        let (phase, action) = match (self.phase, event) {
            (Phase::Accepted, Event::Started) => (
                Phase::Connecting,
                Some(Action::Connect { target: self.upstream }),
            ),
            (Phase::Connecting, Event::Connected) => (Phase::Relaying, Some(Action::Relay)),
            (Phase::Connecting, Event::ConnectFailed) => (
                Phase::Closed,
                Some(Action::Close { result: Err(ForwardError::ConnectFailed) }),
            ),
            (Phase::Relaying, Event::StreamEnded) => (
                Phase::Closed,
                Some(Action::Close { result: Ok(()) }),
            ),
            (Phase::Relaying, Event::TransferFailed) => (
                Phase::Closed,
                Some(Action::Close { result: Err(ForwardError::CopyFailed) }),
            ),
            (phase, _) => (phase, None),
        };
        self.phase = phase;
        action
    }
}

} // verus!
