//! Whole runs of a publisher: what a sequence of events draws from it, and
//! what holds of every such sequence.

use vstd::prelude::*;
use crate::payload::{payload_timestamp, lemma_payload_carries_timestamp};
use crate::publisher::{
    connect_action, transition, ActionView, Event, Phase, PublisherView, EXIT_CLEAN,
    EXIT_STARTUP_FAILURE,
};

verus! {

/// The publisher and the actions it has asked for after a sequence of
/// events, each paired with the clock reading at which it came. An event
/// that is not awaited leaves both as they are.
pub open spec fn run(start: PublisherView, events: Seq<(Event, i64)>) -> (PublisherView, Seq<ActionView>)
    decreases events.len(),
{
    if events.len() == 0 {
        (start, Seq::empty())
    } else {
        let (before, earlier) = run(start, events.drop_last());
        match transition(before, events.last().0, events.last().1) {
            Some((phase, action)) => (
                PublisherView { config: before.config, topic_choice: before.topic_choice, phase },
                earlier.push(action),
            ),
            None => (before, earlier),
        }
    }
}

/// Whether the clock readings of a sequence of events never go down.
pub open spec fn clock_never_runs_back(events: Seq<(Event, i64)>) -> bool {
    forall|i: int, j: int| 0 <= i <= j < events.len() ==> events[i].1 <= events[j].1
}

/// What the latest action says of the phase.
pub open spec fn phase_fits(start: PublisherView, phase: Phase, actions: Seq<ActionView>) -> bool {
    match phase {
        Phase::Uninitialized => actions.len() == 0,
        Phase::Connecting => actions.len() == 1 && actions[0] == connect_action(start),
        Phase::Publishing => actions.len() >= 2 && actions.last() is Publish,
        Phase::Waiting => actions.len() >= 3 && actions.last() == (ActionView::Wait {
            millis: start.config.interval_millis,
        }),
        Phase::Disconnecting => actions.len() >= 3 && actions.last() == ActionView::Disconnect,
        Phase::Terminated => actions.len() >= 2 && actions.last() is Exit,
    }
}

/// The order in which a run asks for its actions: the connect request comes
/// first and once; the first heartbeat follows it and every later one
/// follows a wait of the configured interval; a wait follows a heartbeat; the
/// disconnect follows a heartbeat directly; the exit comes last, with code 1
/// after the connect request and code 0 after the disconnect.
pub open spec fn in_order(start: PublisherView, actions: Seq<ActionView>) -> bool {
    forall|i: int|
        0 <= i < actions.len() ==> match #[trigger] actions[i] {
            ActionView::Connect { .. } => i == 0 && actions[i] == connect_action(start),
            ActionView::Publish { .. } => i >= 1 && if i == 1 {
                actions[0] == connect_action(start)
            } else {
                actions[i - 1] == (ActionView::Wait { millis: start.config.interval_millis })
            },
            ActionView::Wait { millis } => i >= 2 && millis == start.config.interval_millis
                && actions[i - 1] is Publish,
            ActionView::Disconnect => i >= 2 && actions[i - 1] is Publish,
            ActionView::Exit { code } => i == actions.len() - 1 && i >= 1 && if code
                == EXIT_CLEAN {
                actions[i - 1] == ActionView::Disconnect
            } else {
                code == EXIT_STARTUP_FAILURE && i == 1 && actions[0] == connect_action(start)
            },
        }
}

/// The time that the heartbeat at one place of a run carries.
pub open spec fn timestamp_at(start: PublisherView, actions: Seq<ActionView>, i: int) -> int {
    match actions[i] {
        ActionView::Publish { payload, .. } => payload_timestamp(start.config.client_id, payload),
        _ => 0,
    }
}

/// Whether the heartbeats of a run carry timestamps that never go down.
pub open spec fn timestamps_ordered(start: PublisherView, actions: Seq<ActionView>) -> bool {
    forall|i: int, j: int|
        0 <= i <= j < actions.len() && #[trigger] actions[i] is Publish && #[trigger] actions[j] is Publish
            ==> timestamp_at(start, actions, i) <= timestamp_at(start, actions, j)
}

/// Whether no heartbeat of a run carries a timestamp above `bound`.
pub open spec fn timestamps_at_most(start: PublisherView, actions: Seq<ActionView>, bound: int) -> bool {
    forall|i: int|
        0 <= i < actions.len() && #[trigger] actions[i] is Publish ==> timestamp_at(start, actions, i)
            <= bound
}

/// Whatever events reach a fresh publisher, its actions come in the order
/// that [`in_order`] describes: between two heartbeats lies a wait of the
/// configured interval, a heartbeat that fails is followed by the disconnect
/// and never by a wait, and nothing is asked for after the exit.
pub proof fn lemma_run_in_order(start: PublisherView, events: Seq<(Event, i64)>)
    requires
        start.phase == Phase::Uninitialized,
    ensures
        run(start, events).0.config == start.config,
        run(start, events).0.topic_choice == start.topic_choice,
        phase_fits(start, run(start, events).0.phase, run(start, events).1),
        in_order(start, run(start, events).1),
    decreases events.len(),
{
    if events.len() > 0 {
        lemma_run_in_order(start, events.drop_last());
        let (before, earlier) = run(start, events.drop_last());
        let actions = run(start, events).1;
        match transition(before, events.last().0, events.last().1) {
            Some((phase, action)) => {
                assert(actions == earlier.push(action));
                assert forall|i: int| 0 <= i < actions.len() - 1 implies actions[i] == earlier[i] by {}
                assert(in_order(start, actions));
            },
            None => {},
        }
    }
}

/// While the clock never runs back, the heartbeats of a run carry
/// timestamps that never go down, none above the latest clock reading.
pub proof fn lemma_run_timestamps_ordered(start: PublisherView, events: Seq<(Event, i64)>)
    requires
        clock_never_runs_back(events),
    ensures
        timestamps_ordered(start, run(start, events).1),
        events.len() > 0 ==> timestamps_at_most(start, run(start, events).1, events.last().1 as int),
        events.len() == 0 ==> run(start, events).1.len() == 0,
        run(start, events).0.config == start.config,
    decreases events.len(),
{
    if events.len() > 0 {
        let shorter = events.drop_last();
        assert forall|i: int, j: int| 0 <= i <= j < shorter.len() implies shorter[i].1
            <= shorter[j].1 by {
            assert(shorter[i] == events[i] && shorter[j] == events[j]);
        }
        lemma_run_timestamps_ordered(start, shorter);
        let (before, earlier) = run(start, shorter);
        let actions = run(start, events).1;
        let now = events.last().1;
        if shorter.len() > 0 {
            assert(shorter.last() == events[events.len() - 2]);
            assert(shorter.last().1 <= now);
        }
        lemma_payload_carries_timestamp(start.config.client_id, now as int);
        match transition(before, events.last().0, now) {
            Some((phase, action)) => {
                assert(actions == earlier.push(action));
                assert forall|i: int| 0 <= i < actions.len() - 1 implies actions[i] == earlier[i]
                    && timestamp_at(start, actions, i) == timestamp_at(start, earlier, i) by {}
                assert(action is Publish ==> timestamp_at(start, actions, actions.len() - 1) == now);
                assert(timestamps_at_most(start, actions, now as int));
                assert(timestamps_ordered(start, actions));
            },
            None => {
                assert(timestamps_at_most(start, actions, now as int));
            },
        }
    }
}

} // verus!
