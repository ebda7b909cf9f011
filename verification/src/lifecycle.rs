//! What holds of every run of a connection.
//!
//! A run is the sequence of events that a driver reports to one connection.
//! The laws here are proved for every run, whatever the driver does, unless
//! they say that the driver plays by the rules: see [`driven`].

use crate::forwarder::{Action, Connection, Event, ForwardError, Phase};
use vstd::prelude::*;

verus! {

/// The connection after `events` were reported to it, first to last.
pub open spec fn run(c: Connection, events: Seq<Event>) -> Connection
    decreases events.len(),
{
    if events.len() == 0 {
        c
    } else {
        run(c, events.drop_last()).next(events.last())
    }
}

/// What the connection answers to the event at `i`, after the events
/// before it.
pub open spec fn answer(c: Connection, events: Seq<Event>, i: int) -> Option<Action>
    recommends
        0 <= i < events.len(),
{
    run(c, events.take(i)).action(events[i])
}

/// Whether `event` is a report that the driver can make after it has
/// performed `action`.
pub open spec fn answers(action: Action, event: Event) -> bool {
    match action {
        Action::Connect { .. } => event == Event::Connected || event == Event::ConnectFailed,
        Action::Relay => event == Event::StreamEnded || event == Event::TransferFailed,
        Action::Close { .. } => false,
    }
}

/// Whether `events` is what a driver reports that plays by the rules: it
/// begins with [`Event::Started`], and every later event reports on the
/// action that the connection asked for just before.
pub open spec fn driven(c: Connection, events: Seq<Event>) -> bool {
    &&& events.len() > 0 ==> events[0] == Event::Started
    &&& forall|i: int|
        0 <= i < events.len() - 1 ==> match #[trigger] answer(c, events, i) {
            Some(action) => answers(action, events[i + 1]),
            None => false,
        }
}

/// Whether `action` tells the driver to close the connection.
pub open spec fn is_close(action: Option<Action>) -> bool {
    match action {
        Some(Action::Close { .. }) => true,
        _ => false,
    }
}

/// A run can be cut in two: what holds after all of `events` is what holds
/// after the events from `k` on, reported to the connection that the first
/// `k` events left.
pub proof fn lemma_run_split(c: Connection, events: Seq<Event>, k: int)
    requires
        0 <= k <= events.len(),
    ensures
        run(c, events) == run(run(c, events.take(k)), events.skip(k)),
    decreases events.len(),
{
    if k == events.len() {
        assert(events.take(k) == events);
    } else {
        let front = events.drop_last();
        lemma_run_split(c, front, k);
        assert(front.take(k) == events.take(k));
        assert(events.skip(k).drop_last() == front.skip(k));
    }
}

/// No step goes back, and none retries. An event that the phase waits for
/// takes the connection to a later phase; any other event changes nothing
/// and asks nothing of the driver. The upstream is never replaced.
pub proof fn lemma_step_moves_forward(c: Connection, event: Event)
    ensures
        c.next(event).upstream == c.upstream,
        c.phase.admits(event) ==> c.next(event).phase.rank() > c.phase.rank(),
        c.phase.admits(event) <==> c.action(event).is_some(),
        !c.phase.admits(event) ==> c.next(event) == c,
{
}

/// Along a run the phase only moves forward and the upstream stays the
/// same.
pub proof fn lemma_run_moves_forward(c: Connection, events: Seq<Event>)
    ensures
        run(c, events).upstream == c.upstream,
        run(c, events).phase.rank() >= c.phase.rank(),
    decreases events.len(),
{
    if events.len() > 0 {
        lemma_run_moves_forward(c, events.drop_last());
    }
}

/// Whenever a connection asks the driver to connect, the target is the
/// upstream that the connection was made with.
pub proof fn lemma_connects_to_upstream_only(c: Connection, events: Seq<Event>, i: int)
    requires
        0 <= i < events.len(),
    ensures
        match answer(c, events, i) {
            Some(Action::Connect { target }) => target == c.upstream,
            _ => true,
        },
{
    lemma_run_moves_forward(c, events.take(i));
}

/// What a connection answers to an event does not depend on what is
/// reported after it.
pub proof fn lemma_answer_ignores_later_events(c: Connection, events: Seq<Event>, k: int, i: int)
    requires
        0 <= i < k <= events.len(),
    ensures
        answer(c, events.take(k), i) == answer(c, events, i),
{
    assert(events.take(k).take(i) == events.take(i));
}

/// Closed is final: a closed connection stays as it is under every event
/// and asks nothing more of the driver.
pub proof fn lemma_closed_is_final(c: Connection, events: Seq<Event>)
    requires
        c.phase == Phase::Closed,
    ensures
        run(c, events) == c,
        forall|i: int| 0 <= i < events.len() ==> #[trigger] answer(c, events, i).is_none(),
    decreases events.len(),
{
    if events.len() > 0 {
        lemma_closed_is_final(c, events.drop_last());
        assert forall|i: int| 0 <= i < events.len() implies #[trigger] answer(
            c,
            events,
            i,
        ).is_none() by {
            lemma_run_moves_forward(c, events.take(i));
        }
    }
}

/// The driver is told to close exactly when the connection becomes closed,
/// and a closed connection holds no socket: every way out of a connection
/// releases both. The outbound socket is held only while the inbound one
/// is.
pub proof fn lemma_close_releases_every_socket(c: Connection, event: Event)
    ensures
        is_close(c.action(event)) <==> c.phase != Phase::Closed && c.next(event).phase
            == Phase::Closed,
        c.next(event).phase == Phase::Closed ==> !c.next(event).phase.holds_inbound()
            && !c.next(event).phase.holds_outbound(),
        c.next(event).phase.holds_outbound() ==> c.next(event).phase.holds_inbound(),
{
}

/// The result that is reported at the close tells how the connection
/// ended: success after a clean end of stream, a connect failure where the
/// upstream could not be reached, a copy failure where the relay broke.
pub proof fn lemma_result_tells_the_end(c: Connection, event: Event)
    ensures
        c.action(event) == Some(Action::Close { result: Ok(()) }) <==> c.phase == Phase::Relaying
            && event == Event::StreamEnded,
        c.action(event) == Some(Action::Close { result: Err(ForwardError::CopyFailed) })
            <==> c.phase == Phase::Relaying && event == Event::TransferFailed,
        c.action(event) == Some(Action::Close { result: Err(ForwardError::ConnectFailed) })
            <==> c.phase == Phase::Connecting && event == Event::ConnectFailed,
{
}

/// Clean termination: when the relay of a connection comes to a clean end
/// of stream, the driver is told to close with success, the connection is
/// closed and holds no socket, and nothing that is reported later has any
/// effect.
pub proof fn lemma_clean_end_closes(c: Connection, later: Seq<Event>)
    requires
        c.phase == Phase::Relaying,
    ensures
        c.action(Event::StreamEnded) == Some(Action::Close { result: Ok(()) }),
        c.next(Event::StreamEnded).phase == Phase::Closed,
        !c.next(Event::StreamEnded).phase.holds_inbound(),
        !c.next(Event::StreamEnded).phase.holds_outbound(),
        run(c.next(Event::StreamEnded), later) == c.next(Event::StreamEnded),
        forall|i: int|
            0 <= i < later.len() ==> #[trigger] answer(
                c.next(Event::StreamEnded),
                later,
                i,
            ).is_none(),
{
    lemma_closed_is_final(c.next(Event::StreamEnded), later);
}

/// A connection is closed once, with one result: in any run, when the
/// driver has been asked to close, the connection is closed and nothing
/// more is asked of the driver.
pub proof fn lemma_close_is_the_last_answer(c: Connection, events: Seq<Event>, i: int)
    requires
        0 <= i < events.len(),
        is_close(answer(c, events, i)),
    ensures
        forall|j: int| i < j <= events.len() ==> (#[trigger] run(c, events.take(j))).phase
            == Phase::Closed,
        forall|j: int| i < j < events.len() ==> #[trigger] answer(c, events, j).is_none(),
{
    let closed = run(c, events.take(i)).next(events[i]);
    assert(events.take(i + 1).drop_last() == events.take(i));
    assert forall|j: int| i < j <= events.len() implies (#[trigger] run(c, events.take(j))).phase
        == Phase::Closed by {
        lemma_run_split(c, events.take(j), i + 1);
        assert(events.take(j).take(i + 1) == events.take(i + 1));
        lemma_closed_is_final(closed, events.take(j).skip(i + 1));
    }
}

/// A failed connect relays nothing: in a run in which the connection is
/// closed for a connect failure, the connection is closed as soon as the
/// failure is reported, the driver is never asked to relay, and the
/// connection never holds an outbound socket.
pub proof fn lemma_connect_failure_relays_nothing(c: Connection, events: Seq<Event>, i: int)
    requires
        0 <= i < events.len(),
        answer(c, events, i) == Some(Action::Close { result: Err(ForwardError::ConnectFailed) }),
    ensures
        events[i] == Event::ConnectFailed,
        run(c, events.take(i + 1)).phase == Phase::Closed,
        forall|j: int|
            0 <= j < events.len() ==> #[trigger] answer(c, events, j) != Some(Action::Relay),
        forall|j: int|
            0 <= j <= events.len() ==> !(#[trigger] run(c, events.take(j))).phase.holds_outbound(),
{
    lemma_close_is_the_last_answer(c, events, i);
    assert forall|j: int| 0 <= j <= events.len() implies !(#[trigger] run(
        c,
        events.take(j),
    )).phase.holds_outbound() by {
        if j <= i {
            lemma_run_split(c, events.take(i), j);
            assert(events.take(i).take(j) == events.take(j));
            lemma_run_moves_forward(run(c, events.take(j)), events.take(i).skip(j));
        }
    }
    assert forall|j: int| 0 <= j < events.len() implies #[trigger] answer(c, events, j) != Some(
        Action::Relay,
    ) by {
        if answer(c, events, j) == Some(Action::Relay) {
            assert(events.take(j + 1).drop_last() == events.take(j));
            assert(run(c, events.take(j + 1)).phase.holds_outbound());
        }
    }
}

/// A driven connection comes to its end. Under a driver that plays by the
/// rules every event is one that the connection waits for and takes it at
/// least one phase further, so that no run has more than three events.
/// Until the connection is closed the last answer is an action that the
/// driver can perform and report on, so that the run can go on; once it is
/// closed, the last answer was the close.
pub proof fn lemma_driven_run_closes(c: Connection, events: Seq<Event>)
    requires
        c.phase == Phase::Accepted,
        driven(c, events),
    ensures
        run(c, events).phase.rank() >= events.len(),
        events.len() <= 3,
        forall|i: int| 0 <= i < events.len() ==> #[trigger] answer(c, events, i).is_some(),
        events.len() > 0 ==> (run(c, events).phase == Phase::Closed <==> is_close(
            answer(c, events, events.len() - 1),
        )),
        events.len() == 3 ==> run(c, events).phase == Phase::Closed,
    decreases events.len(),
{
    if events.len() > 0 {
        let n = events.len() - 1;
        let front = events.drop_last();
        assert forall|i: int| 0 <= i < n implies #[trigger] answer(c, front, i) == answer(
            c,
            events,
            i,
        ) by {
            lemma_answer_ignores_later_events(c, events, n, i);
        }
        lemma_driven_run_closes(c, front);
    }
}

} // verus!
