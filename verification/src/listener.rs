//! The decisions of the accept loop.
//!
//! The loop owns the listening socket and the one upstream address. It
//! accepts forever: every accepted connection is handed to a task of its
//! own, and a failed accept is reported and followed by the next accept.
//! No outcome of an accept ends the loop, and no field of the listener
//! changes while it runs.

use crate::endpoint::Endpoint;
use crate::forwarder::{Action, Connection, Event, ForwardError, Phase};
use crate::lifecycle::{answer, lemma_connects_to_upstream_only};
use vstd::prelude::*;

verus! {

/// What one call of accept gave.
#[derive(Clone, Copy, Debug, PartialEq, Eq, Structural)]
pub enum Accept {
    /// A client connected from `peer`.
    Connection { peer: Endpoint },
    /// The call failed.
    Failure,
}

/// What the loop does before it accepts again.
#[derive(Clone, Copy, Debug, PartialEq, Eq, Structural)]
pub enum LoopAction {
    /// Log `peer`, start a task of its own that serves `connection`, and go
    /// on without waiting for that task.
    Spawn { peer: Endpoint, connection: Connection },
    /// Log that the accept failed.
    ReportFailure,
}

/// The accept loop's fixed data: the upstream that every connection is
/// forwarded to.
#[derive(Clone, Copy, Debug, PartialEq, Eq, Structural)]
pub struct Listener {
    upstream: Endpoint,
}

/// The first of `candidates`, if there is one.
pub open spec fn first_of(candidates: Seq<Endpoint>) -> Option<Endpoint> {
    if candidates.len() > 0 {
        Some(candidates[0])
    } else {
        None
    }
}

impl Listener {
    /// The upstream that every connection is forwarded to.
    pub closed spec fn spec_upstream(&self) -> Endpoint {
        self.upstream
    }

    /// What the loop does on `accepted`.
    pub open spec fn reaction(&self, accepted: Accept) -> LoopAction {
        match accepted {
            Accept::Connection { peer } => LoopAction::Spawn {
                peer,
                connection: Connection { phase: Phase::Accepted, upstream: self.upstream() },
            },
            Accept::Failure => LoopAction::ReportFailure,
        }
    }

    /// A listener that forwards to `upstream`.
    pub fn new(upstream: Endpoint) -> (listener: Listener)
        ensures
            listener.upstream() == upstream,
    {
        Listener { upstream }
    }

    /// A listener that forwards to the first of `candidates`, the addresses
    /// that a name resolved to, in the order of resolution. The others are
    /// never used. There is no listener where nothing was resolved.
    pub fn from_candidates(candidates: &[Endpoint]) -> (listener: Option<Listener>)
        ensures
            match first_of(candidates@) {
                Some(first) => listener.is_some() && listener.unwrap().upstream() == first,
                None => listener.is_none(),
            },
    {
        if candidates.len() > 0 {
            Some(Listener { upstream: candidates[0] })
        } else {
            None
        }
    }

    /// The upstream that every connection is forwarded to.
    #[verifier::when_used_as_spec(spec_upstream)]
    pub fn upstream(&self) -> (upstream: Endpoint)
        ensures
            upstream == self.upstream(),
    {
        self.upstream
    }

    /// Decides what to do with the result of one accept.
    ///
    /// An accepted connection is given a fresh [`Connection`] that targets
    /// the listener's upstream; a failure is reported. Either way the loop
    /// goes on, and the answer depends on nothing but `accepted` and the
    /// upstream.
    pub fn on_accept(&self, accepted: Accept) -> (action: LoopAction)
        ensures
            action == self.reaction(accepted),
    {
        match accepted {
            Accept::Connection { peer } => LoopAction::Spawn {
                peer,
                connection: Connection::new(self.upstream),
            },
            Accept::Failure => LoopAction::ReportFailure,
        }
    }
}

/// The line to log when a connection's task has ended with `result`: the
/// error's text where it failed, nothing where it succeeded.
pub open spec fn report_of(result: Result<(), ForwardError>) -> Option<Seq<char>> {
    match result {
        Ok(_) => None,
        Err(error) => Some(error.text()),
    }
}

/// What the task that served a connection logs once it has ended with
/// `result`. A connection that ended well logs nothing.
pub fn report(result: Result<(), ForwardError>) -> (line: Option<&'static str>)
    ensures
        match report_of(result) {
            Some(text) => line.is_some() && line.unwrap()@ == text,
            None => line.is_none(),
        },
{
    match result {
        Ok(_) => None,
        Err(error) => Some(error.description()),
    }
}

/// There is one upstream. Whoever connects, and whatever is reported to
/// the connection that the listener hands out for them, every connect that
/// this connection asks for goes to the listener's upstream.
pub proof fn lemma_every_connection_targets_the_upstream(
    listener: Listener,
    peer: Endpoint,
    events: Seq<Event>,
    i: int,
)
    requires
        0 <= i < events.len(),
    ensures
        match listener.reaction(Accept::Connection { peer }) {
            LoopAction::Spawn { connection, .. } => match answer(connection, events, i) {
                Some(Action::Connect { target }) => target == listener.upstream(),
                _ => true,
            },
            LoopAction::ReportFailure => false,
        },
{
    let connection = Connection { phase: Phase::Accepted, upstream: listener.upstream() };
    lemma_connects_to_upstream_only(connection, events, i);
}

} // verus!
