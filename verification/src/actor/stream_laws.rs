//! What holds of every run of the reconnecting stream actor.
//!
//! A run is the sequence of events that the driver reported, each with
//! whether cancellation was observed beside it. The laws are stated over
//! `StreamState::next` and `StreamState::answer`, which is what the actors
//! promise to follow.

use crate::actor::websocket_actor::{Directive, StreamEvent, StreamState};
use crate::mailbox::outcome_of_reply;
use vstd::prelude::*;

verus! {

/// One step of a run: the event, and whether cancellation was observed beside it.
pub struct Observation<V, C> {
    pub cancelled: bool,
    pub event: StreamEvent<V, C>,
}

impl<V, C> Observation<V, C> {
    /// A text frame that did not decode, with no cancellation beside it.
    pub open spec fn malformed_frame() -> Self {
        Observation { cancelled: false, event: StreamEvent::Text(None) }
    }

    /// A command with no cancellation beside it.
    pub open spec fn is_plain_command(self) -> bool {
        !self.cancelled && self.event is Command
    }
}

/// The state that a run leads to.
pub open spec fn run<V, C>(start: StreamState<V>, trace: Seq<Observation<V, C>>) -> StreamState<V>
    decreases trace.len(),
{
    if trace.len() == 0 {
        start
    } else {
        run(start, trace.drop_last()).next(trace.last().cancelled, trace.last().event)
    }
}

/// How many steps of a run begin a connection attempt: the state was not
/// `Connecting` before the step and is after it.
pub open spec fn attempts_begun<V, C>(start: StreamState<V>, trace: Seq<Observation<V, C>>) -> nat
    decreases trace.len(),
{
    if trace.len() == 0 {
        0
    } else {
        let before = run(start, trace.drop_last());
        let after = run(start, trace);
        let begun: nat = if !(before.connection is Connecting) && after.connection is Connecting {
            1
        } else {
            0
        };
        attempts_begun(start, trace.drop_last()) + begun
    }
}

/// How many steps of a run are the loss of the stream of an open session.
pub open spec fn streams_lost<V, C>(start: StreamState<V>, trace: Seq<Observation<V, C>>) -> nat
    decreases trace.len(),
{
    if trace.len() == 0 {
        0
    } else {
        let before = run(start, trace.drop_last());
        let lost: nat = if before.loses_session(trace.last().cancelled, trace.last().event) {
            1
        } else {
            0
        };
        streams_lost(start, trace.drop_last()) + lost
    }
}

/// How many steps of a run are the end of a retry delay that was waited for.
pub open spec fn delays_ended<V, C>(start: StreamState<V>, trace: Seq<Observation<V, C>>) -> nat
    decreases trace.len(),
{
    if trace.len() == 0 {
        0
    } else {
        let before = run(start, trace.drop_last());
        let last = trace.last();
        let ended: nat = if before.connection is ReconnectPending && !StreamState::<V>::halts(
            last.cancelled,
            last.event,
        ) && last.event is BackoffElapsed {
            1
        } else {
            0
        };
        delays_ended(start, trace.drop_last()) + ended
    }
}

/// A run in two parts leads where the second part leads from the end of the first.
pub proof fn lemma_run_concat<V, C>(
    start: StreamState<V>,
    first: Seq<Observation<V, C>>,
    second: Seq<Observation<V, C>>,
)
    ensures
        run(start, first + second) == run(run(start, first), second),
    decreases second.len(),
{
    if second.len() == 0 {
        assert(first + second =~= first);
    } else {
        assert((first + second).drop_last() =~= first + second.drop_last());
        assert((first + second).last() == second.last());
        lemma_run_concat(start, first, second.drop_last());
    }
}

/// Every state that a run reaches from a valid state is valid: a value is
/// held only while a session is open.
pub proof fn law_valid_throughout<V, C>(start: StreamState<V>, trace: Seq<Observation<V, C>>)
    requires
        start.valid(),
    ensures
        run(start, trace).valid(),
        StreamState::<V>::initial().valid(),
    decreases trace.len(),
{
    if trace.len() > 0 {
        law_valid_throughout(start, trace.drop_last());
    }
}

/// Termination is final: a stopped actor stays stopped whatever is reported
/// to it, answers no command, and tells the driver to leave.
pub proof fn law_stopped_is_final<V, C>(start: StreamState<V>, trace: Seq<Observation<V, C>>)
    requires
        start.stopped(),
    ensures
        run(start, trace) == start,
        forall|cancelled: bool, event: StreamEvent<V, C>| #[trigger]
            start.answer(cancelled, event) is None,
        forall|cancelled: bool, event: StreamEvent<V, C>|
            (#[trigger] start.transition(cancelled, event)).directive == Directive::Stop,
    decreases trace.len(),
{
    if trace.len() > 0 {
        law_stopped_is_final(start, trace.drop_last());
    }
}

/// Cancellation wins: where cancellation is observed, the actor stops
/// whatever event came with it. A frame that came with it is not taken up, a
/// command that came with it is not answered, and every query from then on
/// finds the actor gone and yields nothing.
pub proof fn law_cancellation_wins<V, C>(
    state: StreamState<V>,
    event: StreamEvent<V, C>,
    later: Seq<Observation<V, C>>,
)
    requires
        state.valid(),
    ensures
        state.next(true, event).stopped(),
        state.next(true, event).latest is None,
        state.next(false, StreamEvent::<V, C>::Cancelled).stopped(),
        state.answer(true, event) is None,
        state.transition(true, event).directive == Directive::Stop,
        run(state.next(true, event), later).stopped(),
        forall|cancelled: bool, query: StreamEvent<V, C>|
            #![trigger run(state.next(true, event), later).answer(cancelled, query)]
            {
                let reply = run(state.next(true, event), later).answer(cancelled, query);
                reply is None && outcome_of_reply(reply).value() is None
            },
{
    law_stopped_is_final(state.next(true, event), later);
}

/// A query is settled by the step that takes it: a running actor that is not
/// cancelled answers with its latest value, any other leaves the query
/// unanswered, which closes its reply channel and yields nothing. Whether the
/// actor runs on does not depend on the query.
pub proof fn law_query_is_settled_at_once<V, C>(state: StreamState<V>, cancelled: bool, query: C)
    ensures
        outcome_of_reply(state.answer(cancelled, StreamEvent::Command(query))).value() == (if state.stopped()
            || cancelled {
            None
        } else {
            state.latest
        }),
        state.next(cancelled, StreamEvent::Command(query)).stopped() == (state.stopped()
            || cancelled),
{
}

/// A query changes nothing: after any number of commands the actor is in the
/// state it was in.
pub proof fn law_queries_leave_state<V, C>(start: StreamState<V>, queries: Seq<Observation<V, C>>)
    requires
        forall|i: int| 0 <= i < queries.len() ==> (#[trigger] queries[i]).is_plain_command(),
    ensures
        run(start, queries) == start,
    decreases queries.len(),
{
    if queries.len() > 0 {
        law_queries_leave_state(start, queries.drop_last());
        assert(queries.last() == queries[queries.len() - 1]);
        assert(queries.last().is_plain_command());
    }
}

/// Snapshot isolation: two queries with nothing but queries between them are
/// answered with the same value, or are both left unanswered.
pub proof fn law_snapshot_isolation<V, C>(
    state: StreamState<V>,
    first: C,
    between: Seq<Observation<V, C>>,
    second: C,
)
    requires
        forall|i: int| 0 <= i < between.len() ==> (#[trigger] between[i]).is_plain_command(),
    ensures
        state.answer(false, StreamEvent::Command(first)) == run(
            state.next(false, StreamEvent::Command(first)),
            between,
        ).answer(false, StreamEvent::Command(second)),
        !state.stopped() ==> state.answer(false, StreamEvent::Command(first)) == Some(state.latest),
{
    law_queries_leave_state(state.next(false, StreamEvent::Command(first)), between);
}

/// Decode failures are isolated: a run with a malformed frame in it leads
/// where the run without that frame leads, so that every later answer is the
/// same.
pub proof fn law_malformed_frame_is_ignored<V, C>(
    start: StreamState<V>,
    before: Seq<Observation<V, C>>,
    after: Seq<Observation<V, C>>,
)
    ensures
        run(start, before + seq![Observation::malformed_frame()] + after) == run(
            start,
            before + after,
        ),
        forall|cancelled: bool, query: StreamEvent<V, C>|
            #![trigger run(start, before + after).answer(cancelled, query)]
            run(start, before + seq![Observation::malformed_frame()] + after).answer(
                cancelled,
                query,
            ) == run(start, before + after).answer(cancelled, query),
        forall|state: StreamState<V>|
            #![trigger state.next(false, StreamEvent::<V, C>::Text(None))]
            state.next(false, StreamEvent::<V, C>::Text(None)) == state,
{
    let frame = seq![Observation::<V, C>::malformed_frame()];
    let reached = run(start, before);
    lemma_run_concat(start, before, frame);
    assert(frame.drop_last() =~= Seq::<Observation<V, C>>::empty());
    assert(frame.last() == Observation::<V, C>::malformed_frame());
    assert(run(reached, frame) == run(reached, frame.drop_last()).next(
        false,
        StreamEvent::<V, C>::Text(None),
    ));
    assert(run(start, before + frame) == reached);
    lemma_run_concat(start, before + frame, after);
    lemma_run_concat(start, before, after);
}

/// Every connection attempt after the first follows the loss of a stream or
/// the end of a retry delay, one for one.
pub proof fn law_attempts_accounted_for<V, C>(start: StreamState<V>, trace: Seq<Observation<V, C>>)
    ensures
        attempts_begun(start, trace) == streams_lost(start, trace) + delays_ended(start, trace),
    decreases trace.len(),
{
    if trace.len() > 0 {
        law_attempts_accounted_for(start, trace.drop_last());
    }
}

/// Reconnect on close: in a run in which no connection attempt fails, the
/// actor begins exactly one new attempt for each stream that it loses, and
/// none once it is cancelled.
pub proof fn law_reconnect_once_per_close<V, C>(start: StreamState<V>, trace: Seq<Observation<V, C>>)
    requires
        !(start.connection is ReconnectPending),
        forall|i: int| 0 <= i < trace.len() ==> !((#[trigger] trace[i]).event is ConnectFailed),
    ensures
        attempts_begun(start, trace) == streams_lost(start, trace),
        !(run(start, trace).connection is ReconnectPending),
        forall|cancelled: bool, event: StreamEvent<V, C>|
            #![trigger run(start, trace).loses_session(cancelled, event)]
            run(start, trace).loses_session(cancelled, event) ==> run(start, trace).transition(
                cancelled,
                event,
            ).directive == Directive::Connect,
    decreases trace.len(),
{
    if trace.len() > 0 {
        let earlier = trace.drop_last();
        assert forall|i: int| 0 <= i < earlier.len() implies !((#[trigger] earlier[i]).event
            is ConnectFailed) by {
            assert(earlier[i] == trace[i]);
        }
        law_reconnect_once_per_close(start, earlier);
        law_attempts_accounted_for(start, trace);
        assert(trace.last() == trace[trace.len() - 1]);
    }
}

/// The first failure is fatal, a later one is not: a failed attempt stops an
/// actor that never had a session, and sends any other into the retry delay.
pub proof fn law_first_failure_is_fatal<V, C>(state: StreamState<V>)
    requires
        state.connection is Connecting,
    ensures
        !state.connected_before ==> state.next(false, StreamEvent::<V, C>::ConnectFailed).stopped(),
        state.connected_before ==> state.next(
            false,
            StreamEvent::<V, C>::ConnectFailed,
        ).connection is ReconnectPending,
        StreamState::<V>::initial().next(false, StreamEvent::<V, C>::ConnectFailed).stopped(),
{
}

} // verus!
