//! The single-flight adapter: inbound chunks are handled one at a time, in order.
use vstd::prelude::*;

verus! {

/// Whether the adapter holds its session, or lends it to the handling of a chunk.
#[derive(Debug, PartialEq, Eq, Structural, Clone, Copy)]
pub enum FlightState {
    /// Ready to accept the next chunk.
    Idle,
    /// Handling the chunk accepted last; not ready for another.
    InFlight,
}

/// What the adapter does when asked whether it is ready: an idle adapter is ready;
/// one in flight becomes idle and ready once the handling of its chunk has finished,
/// and stays in flight, not ready, until then.
pub fn poll_ready(state: FlightState, finished: bool) -> (r: (FlightState, bool))
    ensures
        r.1 == (r.0 == FlightState::Idle),
        state == FlightState::Idle ==> r == (FlightState::Idle, true),
        state == FlightState::InFlight ==> r == (if finished {
            (FlightState::Idle, true)
        } else {
            (FlightState::InFlight, false)
        }),
{
    match state {
        FlightState::Idle => (FlightState::Idle, true),
        FlightState::InFlight => if finished {
            (FlightState::Idle, true)
        } else {
            (FlightState::InFlight, false)
        },
    }
}

/// Accepts a chunk: an idle adapter starts handling it and goes in flight; one in
/// flight refuses it and stays as it is.
pub fn start_send(state: FlightState) -> (r: Result<FlightState, FlightState>)
    ensures
        state == FlightState::Idle ==> r == Ok::<FlightState, FlightState>(FlightState::InFlight),
        state == FlightState::InFlight ==> r == Err::<FlightState, FlightState>(FlightState::InFlight),
{
    match state {
        FlightState::Idle => Ok(FlightState::InFlight),
        FlightState::InFlight => Err(FlightState::InFlight),
    }
}

/// One step of a driver: accept a chunk, or ask for readiness while the last chunk
/// has or has not finished.
pub enum FlightEvent {
    Accept,
    Poll(bool),
}

/// The state after one step; a refused chunk leaves the state as it was.
pub open spec fn step(state: FlightState, event: FlightEvent) -> FlightState {
    match event {
        FlightEvent::Accept => FlightState::InFlight,
        FlightEvent::Poll(finished) => if state == FlightState::Idle || finished {
            FlightState::Idle
        } else {
            FlightState::InFlight
        },
    }
}

/// Whether a chunk is accepted at this step.
pub open spec fn accepted(state: FlightState, event: FlightEvent) -> bool {
    event is Accept && state == FlightState::Idle
}

/// The states that a run of steps goes through from `start`.
pub open spec fn run(start: FlightState, events: Seq<FlightEvent>) -> Seq<FlightState>
    decreases events.len(),
{
    if events.len() == 0 {
        seq![start]
    } else {
        let before = run(start, events.drop_last());
        before.push(step(before.last(), events.last()))
    }
}

/// Between two accepted chunks the handling of the first one has finished: no chunk
/// begins before the one before it has been handled.
pub proof fn lemma_one_chunk_at_a_time(start: FlightState, events: Seq<FlightEvent>, i: int, j: int)
    requires
        0 <= i < j < events.len(),
        accepted(run(start, events)[i], events[i]),
        accepted(run(start, events)[j], events[j]),
    ensures
        exists|k: int| i < k < j && #[trigger] events[k] == FlightEvent::Poll(true),
    decreases events.len(),
{
    lemma_run_len(start, events);
    if j == events.len() - 1 {
        let prefix = events.drop_last();
        lemma_run_prefix(start, events);
        lemma_finished_between(start, prefix, i);
    } else {
        let prefix = events.drop_last();
        lemma_run_prefix(start, events);
        assert(prefix[i] == events[i] && prefix[j] == events[j]);
        lemma_one_chunk_at_a_time(start, prefix, i, j);
        let k = choose|k: int| i < k < j && #[trigger] prefix[k] == FlightEvent::Poll(true);
        assert(events[k] == prefix[k]);
    }
}

proof fn lemma_run_len(start: FlightState, events: Seq<FlightEvent>)
    ensures
        run(start, events).len() == events.len() + 1,
    decreases events.len(),
{
    if events.len() > 0 {
        lemma_run_len(start, events.drop_last());
    }
}

/// Dropping the last step drops the last state.
proof fn lemma_run_prefix(start: FlightState, events: Seq<FlightEvent>)
    requires
        events.len() > 0,
    ensures
        forall|k: int| 0 <= k < events.len() ==> #[trigger] run(start, events)[k] == run(
            start,
            events.drop_last(),
        )[k],
{
    lemma_run_len(start, events.drop_last());
}

/// Once a chunk is accepted at step `i`, the state stays in flight after every
/// later step up to the first finishing poll.
proof fn lemma_finished_between(start: FlightState, events: Seq<FlightEvent>, i: int)
    requires
        0 <= i < events.len(),
        accepted(run(start, events)[i], events[i]),
        run(start, events)[events.len() as int] == FlightState::Idle,
    ensures
        exists|k: int| i < k < events.len() && #[trigger] events[k] == FlightEvent::Poll(true),
    decreases events.len(),
{
    lemma_run_len(start, events);
    let n = events.len() as int;
    let prefix = events.drop_last();
    lemma_run_len(start, prefix);
    lemma_run_prefix(start, events);
    if i == n - 1 {
        assert(run(start, events)[n] == step(run(start, prefix).last(), events.last()));
    } else {
        assert(run(start, events)[n] == step(run(start, prefix).last(), events.last()));
        if events[n - 1] == FlightEvent::Poll(true) {
        } else {
            assert(prefix[i] == events[i]);
            lemma_finished_between(start, prefix, i);
            let k = choose|k: int| i < k < n - 1 && #[trigger] prefix[k] == FlightEvent::Poll(true);
            assert(events[k] == prefix[k]);
        }
    }
}

} // verus!
