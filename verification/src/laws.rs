//! What holds of every run of the loop, whatever the program hands in.
//!
//! A run is the sequence of events handed to a supervisor since its start.
//! The laws speak of the phase before each event and of the step that answers
//! it, both fixed by the loop's rule alone.

use crate::config::{ConfigView, Mode};
use crate::inventory::{Query, SnapshotView};
use crate::report::{report_of, shutdown_line, DeliveryView};
use crate::request::status_request_of;
use crate::supervisor::{
    advance, phase_at, quiet, step_at, tick_start, ActionView, EventView, PhaseView, StepView,
};
use vstd::prelude::*;

verus! {

/// The index of the last of the first `i` events that was in turn, that is,
/// not answered with `Wait`; -1 if there is none.
pub open spec fn last_turn(config: ConfigView, events: Seq<EventView>, i: nat) -> int
    decreases i,
{
    if i == 0 {
        -1
    } else if step_at(config, events, i - 1).action is Wait {
        last_turn(config, events, (i - 1) as nat)
    } else {
        i - 1
    }
}

/// The action that the program is performing when the first `i` of `events`
/// have been handed in: the last that was asked of it.
pub open spec fn action_in_hand(config: ConfigView, events: Seq<EventView>, i: nat) -> ActionView {
    let k = last_turn(config, events, i);
    if k < 0 {
        tick_start(config).1
    } else {
        step_at(config, events, k).action
    }
}

/// Whether `event` is the end of `action`: a list or a failure ends a query,
/// a delivery ends a request, waking ends a sleep.
pub open spec fn ends(event: EventView, action: ActionView) -> bool {
    match action {
        ActionView::List(_) => event is Listed || event is ListFailed,
        ActionView::Send(_) => event is Sent,
        ActionView::Sleep(_) => event is Woke,
        ActionView::Halt => false,
        ActionView::Wait => false,
    }
}

/// Whether `action` is the one that a loop in `phase` waits on.
pub open spec fn awaited(config: ConfigView, phase: PhaseView, action: ActionView) -> bool {
    match phase {
        PhaseView::ListingContainers => action == ActionView::List(Query::Containers { all: true }),
        PhaseView::ListingImages { .. } => action == ActionView::List(Query::Images { all: true }),
        PhaseView::ListingNetworks { .. } => action == ActionView::List(Query::Networks),
        PhaseView::Sending => action is Send,
        PhaseView::Sleeping => action == ActionView::Sleep(config.interval_secs),
        PhaseView::Stopped => action is Halt,
    }
}

/// An event out of turn changes nothing.
pub proof fn law_out_of_turn_changes_nothing(
    config: ConfigView,
    phase: PhaseView,
    event: EventView,
)
    requires
        advance(config, phase, event).1.action is Wait,
    ensures
        advance(config, phase, event) == (phase, quiet(ActionView::Wait)),
{
}

proof fn lemma_turns(config: ConfigView, events: Seq<EventView>, i: nat)
    ensures
        -1 <= last_turn(config, events, i) < i,
        last_turn(config, events, i) >= 0 ==> !(step_at(
            config,
            events,
            last_turn(config, events, i),
        ).action is Wait),
        last_turn(config, events, i) >= 0 ==> phase_at(config, events, i) == phase_at(
            config,
            events,
            (last_turn(config, events, i) + 1) as nat,
        ),
        last_turn(config, events, i) < 0 ==> phase_at(config, events, i) == tick_start(config).0,
    decreases i,
{
    if i > 0 {
        lemma_turns(config, events, (i - 1) as nat);
    }
}

/// At every point of a run, the action in hand is the one that the loop's
/// phase waits on.
pub proof fn law_phase_awaits_action_in_hand(config: ConfigView, events: Seq<EventView>, i: nat)
    ensures
        awaited(config, phase_at(config, events, i), action_in_hand(config, events, i)),
    decreases i,
{
    lemma_turns(config, events, i);
    let k = last_turn(config, events, i);
    if k >= 0 {
        law_phase_awaits_action_in_hand(config, events, k as nat);
    }
}

/// One thing at a time: the loop asks for a query, a request or a sleep only
/// in answer to the event that ends the action in hand. No call is begun
/// while another is under way.
pub proof fn law_one_action_at_a_time(config: ConfigView, events: Seq<EventView>, i: nat)
    requires
        i < events.len(),
        !(step_at(config, events, i as int).action is Wait),
        !(step_at(config, events, i as int).action is Halt),
    ensures
        ends(events[i as int], action_in_hand(config, events, i)),
{
    law_phase_awaits_action_in_hand(config, events, i);
}

/// An event in turn is never passed over: the event that ends the action in
/// hand is answered with something other than `Wait`.
pub proof fn law_event_in_turn_is_answered(config: ConfigView, events: Seq<EventView>, i: nat)
    requires
        i < events.len(),
        ends(events[i as int], action_in_hand(config, events, i)),
    ensures
        !(step_at(config, events, i as int).action is Wait),
{
    law_phase_awaits_action_in_hand(config, events, i);
}

/// The probe makes no query: in its runs no list is ever asked for, and each
/// tick is one request.
pub proof fn law_probe_makes_no_query(config: ConfigView, events: Seq<EventView>, i: nat)
    requires
        config.mode is Probe,
    ensures
        phase_at(config, events, i) is Sending || phase_at(config, events, i) is Sleeping
            || phase_at(config, events, i) is Stopped,
        !(step_at(config, events, i as int).action is List),
    decreases i,
{
    if i > 0 {
        law_probe_makes_no_query(config, events, (i - 1) as nat);
    }
}

/// Whether `step` begins a tick: it asks for what a tick starts with.
pub open spec fn begins_tick(config: ConfigView, step: StepView) -> bool {
    step.action == tick_start(config).1
}

/// Between two ticks lies the sleep: when a step of a run begins a tick, the
/// action in hand was a sleep of the configured length, and the event that
/// the step answers is the end of that sleep.
pub proof fn law_ticks_are_a_sleep_apart(config: ConfigView, events: Seq<EventView>, i: nat)
    requires
        i < events.len(),
        begins_tick(config, step_at(config, events, i as int)),
    ensures
        events[i as int] is Woke,
        phase_at(config, events, i) is Sleeping,
        action_in_hand(config, events, i) == ActionView::Sleep(config.interval_secs),
        last_turn(config, events, i) >= 0,
{
    law_phase_awaits_action_in_hand(config, events, i);
    lemma_turns(config, events, i);
    let phase = phase_at(config, events, i);
    let event = events[i as int];
    assert(phase is Sleeping && event is Woke) by {
        match config.mode {
            Mode::Inventory => {},
            Mode::Probe => {
                if phase is ListingNetworks && event is Listed {
                    let sent = advance(config, phase, event).1.action;
                    assert(sent->Send_0.method != tick_start(config).1->Send_0.method);
                }
            },
        }
    }
}

proof fn lemma_lists_in_hand(config: ConfigView, events: Seq<EventView>, i: nat)
    ensures
        phase_at(config, events, i) matches PhaseView::ListingImages { containers } ==> {
            let a = last_turn(config, events, i);
            &&& 0 <= a
            &&& phase_at(config, events, a as nat) is ListingContainers
            &&& events[a] == EventView::Listed(containers)
        },
        phase_at(config, events, i) matches PhaseView::ListingNetworks { containers, images } ==> {
            let b = last_turn(config, events, i);
            &&& 0 <= b
            &&& phase_at(config, events, b as nat) == (PhaseView::ListingImages { containers })
            &&& events[b] == EventView::Listed(images)
        },
    decreases i,
{
    lemma_turns(config, events, i);
    if i > 0 {
        lemma_lists_in_hand(config, events, (i - 1) as nat);
    }
}

/// The report carries the tick's own inventory: when the inventory agent asks
/// for a request to be sent, the event just handed in and the two events in
/// turn before it are the lists of networks, of images and of containers, each
/// the answer to its query, and the request is the report of exactly these
/// three.
pub proof fn law_report_carries_the_ticks_inventory(
    config: ConfigView,
    events: Seq<EventView>,
    i: nat,
)
    requires
        i < events.len(),
        config.mode is Inventory,
        step_at(config, events, i as int).action is Send,
    ensures
        ({
            let b = last_turn(config, events, i);
            let a = last_turn(config, events, b as nat);
            &&& 0 <= a < b < i
            &&& events[a] is Listed
            &&& events[b] is Listed
            &&& events[i as int] is Listed
            &&& step_at(config, events, a).action == ActionView::List(Query::Images { all: true })
            &&& step_at(config, events, b).action == ActionView::List(Query::Networks)
            &&& step_at(config, events, i as int).action == ActionView::Send(
                status_request_of(
                    config,
                    SnapshotView {
                        containers: events[a]->Listed_0,
                        images: events[b]->Listed_0,
                        networks: events[i as int]->Listed_0,
                    },
                ),
            )
        }),
{
    lemma_lists_in_hand(config, events, i);
    lemma_turns(config, events, i);
    let b = last_turn(config, events, i);
    assert(phase_at(config, events, i) is ListingNetworks);
    lemma_lists_in_hand(config, events, b as nat);
    lemma_turns(config, events, b as nat);
}

/// Whatever became of a request, the loop goes on: the outcome is logged, and
/// the sleep of the configured length follows.
pub proof fn law_every_delivery_is_logged_and_slept_on(
    config: ConfigView,
    events: Seq<EventView>,
    i: nat,
    delivery: DeliveryView,
)
    requires
        i < events.len(),
        phase_at(config, events, i) is Sending,
        events[i as int] == EventView::Sent(delivery),
    ensures
        step_at(config, events, i as int) == (StepView {
            log: Some(report_of(delivery)),
            action: ActionView::Sleep(config.interval_secs),
        }),
        phase_at(config, events, i + 1) is Sleeping,
{
}

/// Only an interrupt ends the loop, or a failed query where the configuration
/// asks for that: a run without an interrupt, in which no query fails or the
/// configuration passes over such failures, never stops.
pub proof fn law_loop_runs_until_told_to_stop(config: ConfigView, events: Seq<EventView>, n: nat)
    requires
        n <= events.len(),
        forall|i: int| 0 <= i < n ==> !(#[trigger] events[i] is Interrupted),
        config.on_fetch_failure is Continue || forall|i: int|
            0 <= i < n ==> !(#[trigger] events[i] is ListFailed),
    ensures
        !(phase_at(config, events, n) is Stopped),
    decreases n,
{
    if n > 0 {
        law_loop_runs_until_told_to_stop(config, events, (n - 1) as nat);
        assert(!(events[n - 1] is Interrupted));
        if !(config.on_fetch_failure is Continue) {
            assert(!(events[n - 1] is ListFailed));
        }
    }
}

proof fn lemma_stopped_stays(config: ConfigView, events: Seq<EventView>, i: nat, j: nat)
    requires
        i <= j,
        phase_at(config, events, i) is Stopped,
    ensures
        phase_at(config, events, j) is Stopped,
        step_at(config, events, j as int) == quiet(ActionView::Halt),
    decreases j,
{
    if i < j {
        lemma_stopped_stays(config, events, i, (j - 1) as nat);
    }
}

/// Nothing follows an interrupt: whatever the phase in which it arrives, the
/// step that answers it halts, and every later step halts too and logs
/// nothing. No query, no request and no sleep is asked for again.
pub proof fn law_nothing_follows_an_interrupt(
    config: ConfigView,
    events: Seq<EventView>,
    i: nat,
    j: nat,
)
    requires
        i < j < events.len(),
        events[i as int] is Interrupted,
    ensures
        step_at(config, events, i as int).action is Halt,
        phase_at(config, events, j) is Stopped,
        step_at(config, events, j as int) == quiet(ActionView::Halt),
{
    lemma_stopped_stays(config, events, i + 1, j);
}

/// An interrupt that arrives while the loop runs, its sleep included, is
/// answered with the shutdown notice and the end of the process.
pub proof fn law_interrupt_shuts_down(config: ConfigView, events: Seq<EventView>, i: nat)
    requires
        i < events.len(),
        events[i as int] is Interrupted,
        !(phase_at(config, events, i) is Stopped),
    ensures
        step_at(config, events, i as int) == (StepView {
            log: Some(shutdown_line()),
            action: ActionView::Halt,
        }),
        phase_at(config, events, i + 1) is Stopped,
{
}

} // verus!
