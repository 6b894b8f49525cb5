//! The loop of the agent, as a machine that is told what happened and says
//! what to do next.
//!
//! The program around the library performs each [`Action`] and hands back the
//! [`Event`] that ended it. A tick of the inventory agent is three queries and
//! one request; a tick of the probe is one request. A sleep of the configured
//! length lies between two ticks, and an interrupt ends the loop from any
//! phase.

use crate::config::{Config, ConfigView, Mode, OnFetchFailure};
use crate::inventory::{Query, Snapshot, SnapshotView};
use crate::report::{
    fetch_failure, fetch_failure_line, report_line, report_of, shutdown_line, shutdown_notice,
    Delivery, DeliveryView, LogLine, LogLineView,
};
use crate::request::{
    probe_request, probe_request_of, status_request, status_request_of, Request, RequestView,
};
use vstd::prelude::*;

verus! {

/// Where in a tick the loop stands.
#[derive(Debug, PartialEq, Eq)]
pub enum Phase {
    /// The containers have been asked for.
    ListingContainers,
    /// The containers are in; the images have been asked for.
    ListingImages { containers: Vec<String> },
    /// Containers and images are in; the networks have been asked for.
    ListingNetworks { containers: Vec<String>, images: Vec<String> },
    /// The tick's request is on its way.
    Sending,
    /// The tick is over; the loop sleeps.
    Sleeping,
    /// The loop has ended.
    Stopped,
}

/// A phase as mathematics.
pub enum PhaseView {
    ListingContainers,
    ListingImages { containers: Seq<Seq<char>> },
    ListingNetworks { containers: Seq<Seq<char>>, images: Seq<Seq<char>> },
    Sending,
    Sleeping,
    Stopped,
}

impl View for Phase {
    type V = PhaseView;

    open spec fn view(&self) -> PhaseView {
        match self {
            Phase::ListingContainers => PhaseView::ListingContainers,
            Phase::ListingImages { containers } => PhaseView::ListingImages {
                containers: containers.deep_view(),
            },
            Phase::ListingNetworks { containers, images } => PhaseView::ListingNetworks {
                containers: containers.deep_view(),
                images: images.deep_view(),
            },
            Phase::Sending => PhaseView::Sending,
            Phase::Sleeping => PhaseView::Sleeping,
            Phase::Stopped => PhaseView::Stopped,
        }
    }
}

/// What ended the action in hand.
#[derive(Debug, PartialEq, Eq)]
pub enum Event {
    /// The query returned these records, each as its JSON text.
    Listed(Vec<String>),
    /// The query failed, for this reason.
    ListFailed(String),
    /// The request was sent, and this became of it.
    Sent(Delivery),
    /// The sleep is over.
    Woke,
    /// The process was interrupted.
    Interrupted,
}

/// An event as mathematics.
pub enum EventView {
    Listed(Seq<Seq<char>>),
    ListFailed(Seq<char>),
    Sent(DeliveryView),
    Woke,
    Interrupted,
}

impl View for Event {
    type V = EventView;

    open spec fn view(&self) -> EventView {
        match self {
            Event::Listed(records) => EventView::Listed(records.deep_view()),
            Event::ListFailed(reason) => EventView::ListFailed(reason@),
            Event::Sent(delivery) => EventView::Sent(delivery@),
            Event::Woke => EventView::Woke,
            Event::Interrupted => EventView::Interrupted,
        }
    }
}

/// What the program is to do next.
#[derive(Debug, PartialEq, Eq)]
pub enum Action {
    /// Make this query; answer with `Listed` or `ListFailed`.
    List(Query),
    /// Send this request; answer with `Sent`.
    Send(Request),
    /// Sleep this many seconds; answer with `Woke`.
    Sleep(u64),
    /// End the process; nothing more will be asked for.
    Halt,
    /// Nothing new: the event was out of turn, and the action in hand stands.
    Wait,
}

/// An action as mathematics.
pub enum ActionView {
    List(Query),
    Send(RequestView),
    Sleep(u64),
    Halt,
    Wait,
}

impl View for Action {
    type V = ActionView;

    open spec fn view(&self) -> ActionView {
        match self {
            Action::List(query) => ActionView::List(*query),
            Action::Send(request) => ActionView::Send(request@),
            Action::Sleep(secs) => ActionView::Sleep(*secs),
            Action::Halt => ActionView::Halt,
            Action::Wait => ActionView::Wait,
        }
    }
}

/// The answer to one event: a line to log, if any, and then the next action.
#[derive(Debug, PartialEq, Eq)]
pub struct Step {
    pub log: Option<LogLine>,
    pub action: Action,
}

/// A step as mathematics.
pub struct StepView {
    pub log: Option<LogLineView>,
    pub action: ActionView,
}

impl View for Step {
    type V = StepView;

    open spec fn view(&self) -> StepView {
        StepView { log: self.log.deep_view(), action: self.action@ }
    }
}

/// How a tick begins: the inventory agent asks for the containers, the
/// stopped ones too; the probe sends its request.
pub open spec fn tick_start(config: ConfigView) -> (PhaseView, ActionView) {
    match config.mode {
        Mode::Inventory => (
            PhaseView::ListingContainers,
            ActionView::List(Query::Containers { all: true }),
        ),
        Mode::Probe => (PhaseView::Sending, ActionView::Send(probe_request_of(config))),
    }
}

/// A step that logs nothing.
pub open spec fn quiet(action: ActionView) -> StepView {
    StepView { log: None, action }
}

/// What a failed query leads to: the failure is logged, and the loop ends or
/// sleeps until the next tick, as the configuration has it.
pub open spec fn after_fetch_failure(config: ConfigView, reason: Seq<char>) -> (
    PhaseView,
    StepView,
) {
    match config.on_fetch_failure {
        OnFetchFailure::Stop => (
            PhaseView::Stopped,
            StepView { log: Some(fetch_failure_line(reason)), action: ActionView::Halt },
        ),
        OnFetchFailure::Continue => (
            PhaseView::Sleeping,
            StepView {
                log: Some(fetch_failure_line(reason)),
                action: ActionView::Sleep(config.interval_secs),
            },
        ),
    }
}

/// The loop's rule: the phase that follows `phase` on `event`, and the step
/// that answers the event.
///
/// Once stopped, the loop stays stopped and asks for nothing. An interrupt
/// stops it from any other phase, with the shutdown notice. Each list that
/// comes in leads to the next query, and the last to the request that reports
/// all three. Whatever became of the request is logged and followed by the
/// sleep. Waking begins the next tick. An event that does not answer the
/// action in hand changes nothing.
pub open spec fn advance(config: ConfigView, phase: PhaseView, event: EventView) -> (
    PhaseView,
    StepView,
) {
    match (phase, event) {
        (PhaseView::Stopped, _) => (PhaseView::Stopped, quiet(ActionView::Halt)),
        (_, EventView::Interrupted) => (
            PhaseView::Stopped,
            StepView { log: Some(shutdown_line()), action: ActionView::Halt },
        ),
        (PhaseView::ListingContainers, EventView::Listed(containers)) => (
            PhaseView::ListingImages { containers },
            quiet(ActionView::List(Query::Images { all: true })),
        ),
        (PhaseView::ListingImages { containers }, EventView::Listed(images)) => (
            PhaseView::ListingNetworks { containers, images },
            quiet(ActionView::List(Query::Networks)),
        ),
        (PhaseView::ListingNetworks { containers, images }, EventView::Listed(networks)) => (
            PhaseView::Sending,
            quiet(
                ActionView::Send(
                    status_request_of(config, SnapshotView { containers, images, networks }),
                ),
            ),
        ),
        (PhaseView::ListingContainers, EventView::ListFailed(reason)) => after_fetch_failure(
            config,
            reason,
        ),
        (PhaseView::ListingImages { .. }, EventView::ListFailed(reason)) => after_fetch_failure(
            config,
            reason,
        ),
        (PhaseView::ListingNetworks { .. }, EventView::ListFailed(reason)) => after_fetch_failure(
            config,
            reason,
        ),
        (PhaseView::Sending, EventView::Sent(delivery)) => (
            PhaseView::Sleeping,
            StepView {
                log: Some(report_of(delivery)),
                action: ActionView::Sleep(config.interval_secs),
            },
        ),
        (PhaseView::Sleeping, EventView::Woke) => (
            tick_start(config).0,
            quiet(tick_start(config).1),
        ),
        (phase, _) => (phase, quiet(ActionView::Wait)),
    }
}

/// The phase in which the loop stands when the first `i` of `events` have been
/// handed in since the start.
pub open spec fn phase_at(config: ConfigView, events: Seq<EventView>, i: nat) -> PhaseView
    decreases i,
{
    if i == 0 {
        tick_start(config).0
    } else {
        advance(config, phase_at(config, events, (i - 1) as nat), events[i - 1]).0
    }
}

/// The step that answers `events[i]`.
pub open spec fn step_at(config: ConfigView, events: Seq<EventView>, i: int) -> StepView {
    advance(config, phase_at(config, events, i as nat), events[i]).1
}

/// The phase after `i` events depends on those `i` events alone.
pub proof fn lemma_phase_of_prefix(
    config: ConfigView,
    events: Seq<EventView>,
    longer: Seq<EventView>,
    i: nat,
)
    requires
        i <= events.len() <= longer.len(),
        forall|k: int| 0 <= k < events.len() ==> events[k] == longer[k],
    ensures
        phase_at(config, longer, i) == phase_at(config, events, i),
    decreases i,
{
    if i > 0 {
        lemma_phase_of_prefix(config, events, longer, (i - 1) as nat);
    }
}

/// The loop of one agent: its settings, where it stands, and, for the proofs
/// alone, what it has been handed so far.
pub struct Supervisor {
    config: Config,
    phase: Phase,
    history: Ghost<Seq<EventView>>,
}

/// A supervisor as mathematics.
pub struct SupervisorView {
    pub config: ConfigView,
    pub phase: PhaseView,
    /// The events handed in since the start, oldest first.
    pub history: Seq<EventView>,
}

impl View for Supervisor {
    type V = SupervisorView;

    closed spec fn view(&self) -> SupervisorView {
        SupervisorView { config: self.config@, phase: self.phase@, history: self.history@ }
    }
}

fn begin_tick(config: &Config) -> (start: (Phase, Action))
    ensures
        (start.0@, start.1@) == tick_start(config@),
{
    match config.mode {
        Mode::Inventory => (Phase::ListingContainers, Action::List(Query::Containers { all: true })),
        Mode::Probe => (Phase::Sending, Action::Send(probe_request(config))),
    }
}

fn fetch_failed(config: &Config, reason: &str) -> (next: (Phase, Step))
    ensures
        (next.0@, next.1@) == after_fetch_failure(config@, reason@),
{
    let log = Some(fetch_failure(reason));
    match config.on_fetch_failure {
        OnFetchFailure::Stop => (Phase::Stopped, Step { log, action: Action::Halt }),
        OnFetchFailure::Continue => (
            Phase::Sleeping,
            Step { log, action: Action::Sleep(config.interval_secs) },
        ),
    }
}

fn silently(action: Action) -> (step: Step)
    ensures
        step@ == quiet(action@),
{
    Step { log: None, action }
}

fn next(config: &Config, phase: Phase, event: Event) -> (next: (Phase, Step))
    ensures
        (next.0@, next.1@) == advance(config@, phase@, event@),
{
    match phase {
        Phase::Stopped => (Phase::Stopped, silently(Action::Halt)),
        Phase::ListingContainers => match event {
            Event::Interrupted => (
                Phase::Stopped,
                Step { log: Some(shutdown_notice()), action: Action::Halt },
            ),
            Event::Listed(containers) => (
                Phase::ListingImages { containers },
                silently(Action::List(Query::Images { all: true })),
            ),
            Event::ListFailed(reason) => fetch_failed(config, reason.as_str()),
            _ => (Phase::ListingContainers, silently(Action::Wait)),
        },
        Phase::ListingImages { containers } => match event {
            Event::Interrupted => (
                Phase::Stopped,
                Step { log: Some(shutdown_notice()), action: Action::Halt },
            ),
            Event::Listed(images) => (
                Phase::ListingNetworks { containers, images },
                silently(Action::List(Query::Networks)),
            ),
            Event::ListFailed(reason) => fetch_failed(config, reason.as_str()),
            _ => (Phase::ListingImages { containers }, silently(Action::Wait)),
        },
        Phase::ListingNetworks { containers, images } => match event {
            Event::Interrupted => (
                Phase::Stopped,
                Step { log: Some(shutdown_notice()), action: Action::Halt },
            ),
            Event::Listed(networks) => {
                let snapshot = Snapshot::new(containers, images, networks);
                (Phase::Sending, silently(Action::Send(status_request(config, &snapshot))))
            },
            Event::ListFailed(reason) => fetch_failed(config, reason.as_str()),
            _ => (Phase::ListingNetworks { containers, images }, silently(Action::Wait)),
        },
        Phase::Sending => match event {
            Event::Interrupted => (
                Phase::Stopped,
                Step { log: Some(shutdown_notice()), action: Action::Halt },
            ),
            Event::Sent(delivery) => (
                Phase::Sleeping,
                Step {
                    log: Some(report_line(&delivery)),
                    action: Action::Sleep(config.interval_secs),
                },
            ),
            _ => (Phase::Sending, silently(Action::Wait)),
        },
        Phase::Sleeping => match event {
            Event::Interrupted => (
                Phase::Stopped,
                Step { log: Some(shutdown_notice()), action: Action::Halt },
            ),
            Event::Woke => {
                let (phase, action) = begin_tick(config);
                (phase, silently(action))
            },
            _ => (Phase::Sleeping, silently(Action::Wait)),
        },
    }
}

impl Supervisor {
    /// A supervisor stands where the rule leads from the start through its
    /// history.
    #[verifier::type_invariant]
    spec fn stands_where_its_history_leads(self) -> bool {
        self.phase@ == phase_at(self.config@, self.history@, self.history@.len())
    }

    /// Starts the loop: the first tick begins at once.
    pub fn start(config: Config) -> (started: (Supervisor, Action))
        ensures
            started.0@.config == config@,
            started.0@.history == Seq::<EventView>::empty(),
            (started.0@.phase, started.1@) == tick_start(config@),
    {
        let (phase, action) = begin_tick(&config);
        (Supervisor { config, phase, history: Ghost(Seq::empty()) }, action)
    }

    /// Takes in what ended the action in hand, and gives the supervisor as it
    /// stands then, with what to log and what to do next.
    pub fn step(self, event: Event) -> (next: (Supervisor, Step))
        ensures
            next.0@.config == self@.config,
            next.0@.history == self@.history.push(event@),
            (next.0@.phase, next.1@) == advance(self@.config, self@.phase, event@),
            next.1@ == step_at(next.0@.config, next.0@.history, self@.history.len() as int),
    {
        proof {
            use_type_invariant(&self);
        }
        let ghost seen = self.history@;
        let ghost now = seen.push(event@);
        let Supervisor { config, phase, history } = self;
        let (phase, step) = self::next(&config, phase, event);
        proof {
            lemma_phase_of_prefix(config@, seen, now, seen.len());
            assert(now[seen.len() as int] == event@);
        }
        (Supervisor { config, phase, history: Ghost(now) }, step)
    }

    /// The settings that the loop was started with.
    pub fn config(&self) -> (config: &Config)
        ensures
            config@ == self@.config,
    {
        &self.config
    }

    /// Where the loop stands: in the phase that the rule leads to from the
    /// start through all that was handed in.
    pub fn phase(&self) -> (phase: &Phase)
        ensures
            phase@ == self@.phase,
            phase@ == phase_at(self@.config, self@.history, self@.history.len()),
    {
        proof {
            use_type_invariant(self);
        }
        &self.phase
    }

    /// Whether the loop has ended.
    pub fn is_stopped(&self) -> (stopped: bool)
        ensures
            stopped == (self@.phase is Stopped),
    {
        match self.phase {
            Phase::Stopped => true,
            _ => false,
        }
    }
}

} // verus!
