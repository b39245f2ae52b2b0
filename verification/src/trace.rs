//! Whole runs of bridged connections, and what holds of every run: the relay
//! is a faithful pipe, teardown is immediate and final, and connections that
//! run side by side do not touch each other's bytes.

use vstd::prelude::*;
use crate::bridge::{peer_of, transition, ActionView, EventView, Phase, Side};

verus! {

/// Where a connection stands after a run, and every action it asked for.
pub struct Run {
    pub phase: Phase,
    pub actions: Seq<ActionView>,
}

/// A run extended by one event.
pub open spec fn step(before: Run, event: EventView) -> Run {
    let (phase, action) = transition(before.phase, event);
    Run { phase, actions: before.actions.push(action) }
}

/// The run of a connection that starts in `phase` and is given `events` in order.
pub open spec fn run(phase: Phase, events: Seq<EventView>) -> Run
    decreases events.len(),
{
    if events.len() == 0 {
        Run { phase, actions: Seq::empty() }
    } else {
        step(run(phase, events.drop_last()), events.last())
    }
}

/// The bytes that an event reports as read from `from`.
pub open spec fn bytes_read(event: EventView, from: Side) -> Seq<u8> {
    match event {
        EventView::Data { from: side, bytes } => if side == from {
            bytes
        } else {
            Seq::empty()
        },
        _ => Seq::empty(),
    }
}

/// The bytes that an action writes to `to`.
pub open spec fn bytes_written(action: ActionView, to: Side) -> Seq<u8> {
    match action {
        ActionView::Forward { to: side, bytes } => if side == to {
            bytes
        } else {
            Seq::empty()
        },
        _ => Seq::empty(),
    }
}

/// The stream that was read from `from` over all of `events`.
pub open spec fn stream_read(events: Seq<EventView>, from: Side) -> Seq<u8>
    decreases events.len(),
{
    if events.len() == 0 {
        Seq::empty()
    } else {
        stream_read(events.drop_last(), from) + bytes_read(events.last(), from)
    }
}

/// The stream that `actions` write to `to`.
pub open spec fn stream_written(actions: Seq<ActionView>, to: Side) -> Seq<u8>
    decreases actions.len(),
{
    if actions.len() == 0 {
        Seq::empty()
    } else {
        stream_written(actions.drop_last(), to) + bytes_written(actions.last(), to)
    }
}

/// Whether an event reports that a stream ended or failed.
pub open spec fn ends_a_stream(event: EventView) -> bool {
    event is Eof || event is Failed
}

/// A run asks for exactly one action per event.
pub proof fn lemma_run_length(phase: Phase, events: Seq<EventView>)
    ensures
        run(phase, events).actions.len() == events.len(),
    decreases events.len(),
{
    if events.len() > 0 {
        lemma_run_length(phase, events.drop_last());
    }
}

/// A run can be cut anywhere: the second part goes on from where the first ended.
pub proof fn lemma_run_concat(phase: Phase, first: Seq<EventView>, second: Seq<EventView>)
    ensures
        run(phase, first + second).phase == run(run(phase, first).phase, second).phase,
        run(phase, first + second).actions == run(phase, first).actions + run(
            run(phase, first).phase,
            second,
        ).actions,
    decreases second.len(),
{
    if second.len() > 0 {
        lemma_run_concat(phase, first, second.drop_last());
        assert((first + second).drop_last() =~= first + second.drop_last());
    }
}

/// The relay is a faithful pipe. Whatever happens on a connection, the bytes
/// written to one stream are a prefix of the bytes read from the other, in
/// the order they were read and unchanged; and as long as the connection is
/// not closed, they are all of them.
pub proof fn lemma_pipe_is_faithful(phase: Phase, events: Seq<EventView>, from: Side)
    ensures
        stream_written(run(phase, events).actions, peer_of(from)).is_prefix_of(
            stream_read(events, from),
        ),
        phase != Phase::Closed && run(phase, events).phase != Phase::Closed ==> stream_written(
            run(phase, events).actions,
            peer_of(from),
        ) == stream_read(events, from),
        phase == Phase::Closed ==> stream_written(run(phase, events).actions, peer_of(from))
            == Seq::<u8>::empty(),
    decreases events.len(),
{
    if events.len() > 0 {
        let earlier = events.drop_last();
        lemma_pipe_is_faithful(phase, earlier, from);
        assert(run(phase, events).actions.drop_last() =~= run(phase, earlier).actions);
        if phase == Phase::Closed {
            lemma_closed_is_final(earlier);
        }
    }
}

/// A closed connection stays closed: whatever happens afterwards, it asks for
/// nothing more and writes no byte.
pub proof fn lemma_closed_is_final(events: Seq<EventView>)
    ensures
        run(Phase::Closed, events).phase == Phase::Closed,
        forall|i: int|
            0 <= i < events.len() ==> #[trigger] run(Phase::Closed, events).actions[i]
                == ActionView::Idle,
        run(Phase::Closed, events).actions.len() == events.len(),
    decreases events.len(),
{
    if events.len() > 0 {
        lemma_closed_is_final(events.drop_last());
    }
}

/// Teardown is immediate and final. When either stream of a bridged
/// connection ends or fails, the very next action closes both streams, and
/// nothing that happens later makes the connection do anything again.
pub proof fn lemma_teardown_is_immediate(
    before: Seq<EventView>,
    ending: EventView,
    after: Seq<EventView>,
)
    requires
        run(Phase::Bridging, before).phase == Phase::Bridging,
        ends_a_stream(ending),
    ensures
        run(Phase::Bridging, before.push(ending) + after).phase == Phase::Closed,
        run(Phase::Bridging, before.push(ending) + after).actions.len() == before.len() + 1
            + after.len(),
        run(Phase::Bridging, before.push(ending) + after).actions[before.len() as int]
            is Close,
        forall|i: int|
            before.len() < i <= before.len() + after.len() ==> #[trigger] run(
                Phase::Bridging,
                before.push(ending) + after,
            ).actions[i] == ActionView::Idle,
{
    let upto = before.push(ending);
    assert(upto.drop_last() =~= before);
    lemma_run_length(Phase::Bridging, upto);
    lemma_run_concat(Phase::Bridging, upto, after);
    lemma_closed_is_final(after);
}

/// One event of a schedule over two connections, with the connection it belongs to.
pub struct Turn {
    pub of_first: bool,
    pub event: EventView,
}

/// The events of one of the two connections, in the order of the schedule.
pub open spec fn events_of(schedule: Seq<Turn>, of_first: bool) -> Seq<EventView>
    decreases schedule.len(),
{
    if schedule.len() == 0 {
        Seq::empty()
    } else if schedule.last().of_first == of_first {
        events_of(schedule.drop_last(), of_first).push(schedule.last().event)
    } else {
        events_of(schedule.drop_last(), of_first)
    }
}

/// The runs of two connections whose events arrive interleaved: each event
/// is taken by the connection it belongs to.
pub open spec fn run_two(first: Phase, second: Phase, schedule: Seq<Turn>) -> (Run, Run)
    decreases schedule.len(),
{
    if schedule.len() == 0 {
        (Run { phase: first, actions: Seq::empty() }, Run { phase: second, actions: Seq::empty() })
    } else {
        let (a, b) = run_two(first, second, schedule.drop_last());
        if schedule.last().of_first {
            (step(a, schedule.last().event), b)
        } else {
            (a, step(b, schedule.last().event))
        }
    }
}

/// Connections are isolated. However the events of two connections are
/// interleaved, each connection runs exactly as it would alone on its own
/// events; so what it writes to either of its streams is a prefix of what was
/// read from its own other stream, and never holds a byte of the other
/// connection.
pub proof fn lemma_connections_are_isolated(
    first: Phase,
    second: Phase,
    schedule: Seq<Turn>,
    from: Side,
)
    ensures
        run_two(first, second, schedule).0 == run(first, events_of(schedule, true)),
        run_two(first, second, schedule).1 == run(second, events_of(schedule, false)),
        stream_written(run_two(first, second, schedule).0.actions, peer_of(from)).is_prefix_of(
            stream_read(events_of(schedule, true), from),
        ),
        stream_written(run_two(first, second, schedule).1.actions, peer_of(from)).is_prefix_of(
            stream_read(events_of(schedule, false), from),
        ),
    decreases schedule.len(),
{
    if schedule.len() > 0 {
        lemma_connections_are_isolated(first, second, schedule.drop_last(), from);
        let mine = events_of(schedule, schedule.last().of_first);
        assert(mine.drop_last() =~= events_of(schedule.drop_last(), schedule.last().of_first));
    }
    lemma_pipe_is_faithful(first, events_of(schedule, true), from);
    lemma_pipe_is_faithful(second, events_of(schedule, false), from);
}

} // verus!
