//! Connections side by side.
//!
//! The proxy serves any number of connections at once, each in a task of
//! its own. The events of different connections reach their state machines
//! in an order that nobody controls. The law here says that the order does
//! not matter: what becomes of one connection depends on its own events
//! alone.

use crate::forwarder::{Connection, Event};
use crate::lifecycle::run;
use vstd::prelude::*;

verus! {

/// One report of a driver: `event` happened on the connection numbered
/// `connection`.
pub struct Report {
    pub connection: int,
    pub event: Event,
}

/// The connections after one report. A report for a number that no
/// connection has changes nothing.
pub open spec fn all_next(connections: Seq<Connection>, report: Report) -> Seq<Connection> {
    if 0 <= report.connection < connections.len() {
        connections.update(report.connection, connections[report.connection].next(report.event))
    } else {
        connections
    }
}

/// The connections after `reports`, first to last.
pub open spec fn all_run(connections: Seq<Connection>, reports: Seq<Report>) -> Seq<Connection>
    decreases reports.len(),
{
    if reports.len() == 0 {
        connections
    } else {
        all_next(all_run(connections, reports.drop_last()), reports.last())
    }
}

/// The events in `reports` that belong to the connection numbered `which`,
/// in their order.
pub open spec fn events_of(reports: Seq<Report>, which: int) -> Seq<Event>
    decreases reports.len(),
{
    if reports.len() == 0 {
        Seq::empty()
    } else if reports.last().connection == which {
        events_of(reports.drop_last(), which).push(reports.last().event)
    } else {
        events_of(reports.drop_last(), which)
    }
}

/// Connections do not interfere. However the reports of several
/// connections are interleaved, each connection ends where its own events
/// alone would have taken it: a connection that fails, or never ends, has
/// no effect on any other.
pub proof fn lemma_connections_do_not_interfere(
    connections: Seq<Connection>,
    reports: Seq<Report>,
    which: int,
)
    requires
        0 <= which < connections.len(),
    ensures
        all_run(connections, reports).len() == connections.len(),
        all_run(connections, reports)[which] == run(connections[which], events_of(reports, which)),
    decreases reports.len(),
{
    if reports.len() > 0 {
        let front = reports.drop_last();
        lemma_connections_do_not_interfere(connections, front, which);
        if reports.last().connection == which {
            let events = events_of(front, which).push(reports.last().event);
            assert(events.drop_last() == events_of(front, which));
        }
    }
}

} // verus!
