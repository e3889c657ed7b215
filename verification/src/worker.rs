//! The sampling worker as a state machine. It decides; the program around
//! it acts. Each step takes the outcome of the last action and names the
//! next one.

use crate::component::SensorComponent;
use crate::config::{BridgeConfig, ConfigView};
use crate::publication::{
    discovery_publication, spec_discovery_publication, spec_state_publication, state_publication,
    Publication, PublicationView,
};
use crate::reading::{Reading, ReadingView};
use crate::topic::lemma_topics_are_distinct;
use vstd::prelude::*;

verus! {

/// The seconds the worker rests between two samples.
pub const SAMPLING_INTERVAL_SECS: u64 = 1;

/// Why the worker gave up.
#[derive(Clone, Copy, Debug, PartialEq, Eq, Structural)]
pub enum WorkerFailure {
    /// The announcement of this component could not be published.
    Announcement(SensorComponent),
    /// The sensor could not be read.
    Sensor,
    /// The measurements could not be published.
    Report,
    /// An outcome arrived that answers no action the worker had asked for.
    OutOfTurn,
}

/// Where the worker stands: what it has asked for and now waits on.
#[derive(Clone, Copy, Debug, PartialEq, Eq, Structural)]
pub enum WorkerState {
    /// Nothing has been asked for yet.
    Starting,
    /// The announcement of the component is with the broker client.
    Announcing(SensorComponent),
    /// The interval between two samples is running.
    Resting,
    /// The sensor is being read.
    Measuring,
    /// The measurements are with the broker client.
    Reporting,
    /// The worker has given up, for good.
    Failed(WorkerFailure),
}

/// The stages a worker goes through, in this order. Nothing is awaited
/// between the first two: messages are delivered at most once, so there is
/// no acknowledgement to wait for, and the worker goes from the last
/// announcement straight to sampling.
#[derive(Clone, Copy, Debug, PartialEq, Eq, Structural)]
pub enum Phase {
    /// The components are being announced, once each.
    Starting,
    /// Rest, read, publish, over and over.
    Sampling,
    /// The end.
    Failed,
}

/// What came of the last action.
#[derive(Clone, Debug, PartialEq, Eq)]
pub enum WorkerEvent {
    /// The worker was started.
    Begin,
    /// The broker client took the message.
    Published,
    /// The broker client refused the message.
    PublishFailed,
    /// The interval is over.
    Rested,
    /// The sensor gave a sample.
    Measured(Reading),
    /// The sensor could not be read.
    MeasureFailed,
}

/// A [`WorkerEvent`] as plain values.
pub enum EventView {
    Begin,
    Published,
    PublishFailed,
    Rested,
    Measured(ReadingView),
    MeasureFailed,
}

impl View for WorkerEvent {
    type V = EventView;

    open spec fn view(&self) -> EventView {
        match self {
            WorkerEvent::Begin => EventView::Begin,
            WorkerEvent::Published => EventView::Published,
            WorkerEvent::PublishFailed => EventView::PublishFailed,
            WorkerEvent::Rested => EventView::Rested,
            WorkerEvent::Measured(reading) => EventView::Measured(reading@),
            WorkerEvent::MeasureFailed => EventView::MeasureFailed,
        }
    }
}

/// What the program is to do next.
#[derive(Clone, Debug, PartialEq, Eq)]
pub enum WorkerAction {
    /// Hand this message to the broker client.
    Publish(Publication),
    /// Wait this many seconds.
    Rest(u64),
    /// Read the sensor.
    Measure,
    /// End the worker and report the failure.
    Stop(WorkerFailure),
}

/// A [`WorkerAction`] as plain values.
pub enum ActionView {
    Publish(PublicationView),
    Rest(u64),
    Measure,
    Stop(WorkerFailure),
}

impl View for WorkerAction {
    type V = ActionView;

    open spec fn view(&self) -> ActionView {
        match self {
            WorkerAction::Publish(publication) => ActionView::Publish(publication@),
            WorkerAction::Rest(seconds) => ActionView::Rest(*seconds),
            WorkerAction::Measure => ActionView::Measure,
            WorkerAction::Stop(failure) => ActionView::Stop(*failure),
        }
    }
}

impl Phase {
    /// The place of the stage in the order they come in.
    pub open spec fn rank(self) -> nat {
        match self {
            Phase::Starting => 0,
            Phase::Sampling => 1,
            Phase::Failed => 2,
        }
    }
}

impl WorkerState {
    /// The stage this state belongs to.
    pub open spec fn phase(self) -> Phase {
        match self {
            WorkerState::Starting | WorkerState::Announcing(_) => Phase::Starting,
            WorkerState::Resting | WorkerState::Measuring | WorkerState::Reporting => {
                Phase::Sampling
            },
            WorkerState::Failed(_) => Phase::Failed,
        }
    }

    /// The state after `event`, and the action that goes with it.
    ///
    /// The components are announced in the order temperature, pressure; then
    /// the worker rests, measures and reports without end. A failed
    /// publication or measurement ends the worker, and so does an event that
    /// answers nothing the worker asked for. Once failed, the worker stays
    /// failed.
    pub open spec fn next(self, config: ConfigView, event: EventView) -> (WorkerState, ActionView) {
        match (self, event) {
            (WorkerState::Starting, EventView::Begin) => (
                WorkerState::Announcing(SensorComponent::Temperature),
                ActionView::Publish(
                    spec_discovery_publication(config, SensorComponent::Temperature),
                ),
            ),
            (WorkerState::Announcing(SensorComponent::Temperature), EventView::Published) => (
                WorkerState::Announcing(SensorComponent::Pressure),
                ActionView::Publish(spec_discovery_publication(config, SensorComponent::Pressure)),
            ),
            (WorkerState::Announcing(SensorComponent::Pressure), EventView::Published) => (
                WorkerState::Resting,
                ActionView::Rest(SAMPLING_INTERVAL_SECS),
            ),
            (WorkerState::Announcing(component), EventView::PublishFailed) => failed(
                WorkerFailure::Announcement(component),
            ),
            (WorkerState::Resting, EventView::Rested) => (
                WorkerState::Measuring,
                ActionView::Measure,
            ),
            (WorkerState::Measuring, EventView::Measured(reading)) => (
                WorkerState::Reporting,
                ActionView::Publish(spec_state_publication(config, reading)),
            ),
            (WorkerState::Measuring, EventView::MeasureFailed) => failed(WorkerFailure::Sensor),
            (WorkerState::Reporting, EventView::Published) => (
                WorkerState::Resting,
                ActionView::Rest(SAMPLING_INTERVAL_SECS),
            ),
            (WorkerState::Reporting, EventView::PublishFailed) => failed(WorkerFailure::Report),
            (WorkerState::Failed(failure), _) => failed(failure),
            _ => failed(WorkerFailure::OutOfTurn),
        }
    }

    /// Takes the outcome of the last action and decides on the next one.
    pub fn step(
        self,
        config: &BridgeConfig,
        event: WorkerEvent,
    ) -> (decision: (WorkerState, WorkerAction))
        ensures
            decision.0 == self.next(config@, event@).0,
            decision.1@ == self.next(config@, event@).1,
            event@ is MeasureFailed || event@ is PublishFailed ==> decision.0.phase()
                == Phase::Failed && decision.1@ is Stop,
    {
        match self {
            WorkerState::Failed(failure) => (
                WorkerState::Failed(failure),
                WorkerAction::Stop(failure),
            ),
            WorkerState::Starting => match event {
                WorkerEvent::Begin => (
                    WorkerState::Announcing(SensorComponent::Temperature),
                    WorkerAction::Publish(
                        discovery_publication(config, SensorComponent::Temperature),
                    ),
                ),
                _ => give_up(WorkerFailure::OutOfTurn),
            },
            WorkerState::Announcing(component) => match event {
                WorkerEvent::Published => match component {
                    SensorComponent::Temperature => (
                        WorkerState::Announcing(SensorComponent::Pressure),
                        WorkerAction::Publish(
                            discovery_publication(config, SensorComponent::Pressure),
                        ),
                    ),
                    SensorComponent::Pressure => (
                        WorkerState::Resting,
                        WorkerAction::Rest(SAMPLING_INTERVAL_SECS),
                    ),
                },
                WorkerEvent::PublishFailed => give_up(WorkerFailure::Announcement(component)),
                _ => give_up(WorkerFailure::OutOfTurn),
            },
            WorkerState::Resting => match event {
                WorkerEvent::Rested => (WorkerState::Measuring, WorkerAction::Measure),
                _ => give_up(WorkerFailure::OutOfTurn),
            },
            WorkerState::Measuring => match event {
                WorkerEvent::Measured(reading) => (
                    WorkerState::Reporting,
                    WorkerAction::Publish(state_publication(config, &reading)),
                ),
                WorkerEvent::MeasureFailed => give_up(WorkerFailure::Sensor),
                _ => give_up(WorkerFailure::OutOfTurn),
            },
            WorkerState::Reporting => match event {
                WorkerEvent::Published => (
                    WorkerState::Resting,
                    WorkerAction::Rest(SAMPLING_INTERVAL_SECS),
                ),
                WorkerEvent::PublishFailed => give_up(WorkerFailure::Report),
                _ => give_up(WorkerFailure::OutOfTurn),
            },
        }
    }
}

/// The failed state for `failure`, and the action that ends the worker.
pub open spec fn failed(failure: WorkerFailure) -> (WorkerState, ActionView) {
    (WorkerState::Failed(failure), ActionView::Stop(failure))
}

fn give_up(failure: WorkerFailure) -> (decision: (WorkerState, WorkerAction))
    ensures
        decision.0 == failed(failure).0,
        decision.1@ == failed(failure).1,
{
    (WorkerState::Failed(failure), WorkerAction::Stop(failure))
}

impl WorkerState {
    /// The state after all of `events`, taken in order.
    pub open spec fn after(self, config: ConfigView, events: Seq<EventView>) -> WorkerState
        decreases events.len(),
    {
        if events.len() == 0 {
            self
        } else {
            self.after(config, events.drop_last()).next(config, events.last()).0
        }
    }

    /// The action that answers `events[at]`, the events before it having
    /// been taken in order.
    pub open spec fn action_at(
        self,
        config: ConfigView,
        events: Seq<EventView>,
        at: int,
    ) -> ActionView {
        self.after(config, events.take(at)).next(config, events[at]).1
    }

    /// While sampling, the worker publishes only in answer to a sample, and
    /// what it publishes are that sample's measurements.
    pub proof fn lemma_report_follows_measurement(self, config: ConfigView, event: EventView)
        requires
            self.phase() == Phase::Sampling,
            self.next(config, event).1 is Publish,
        ensures
            event is Measured,
            self.next(config, event).1 == ActionView::Publish(
                spec_state_publication(config, event->Measured_0),
            ),
    {
    }

    /// A failure of any kind is answered with the end of the worker: a
    /// failed publication or measurement never leads to another action.
    pub proof fn lemma_failure_is_fatal(self, config: ConfigView, event: EventView)
        requires
            event is PublishFailed || event is MeasureFailed,
        ensures
            self.next(config, event).0.phase() == Phase::Failed,
            self.next(config, event).1 is Stop,
    {
    }

    /// The worker never goes back to an earlier stage.
    pub proof fn lemma_stages_only_advance(self, config: ConfigView, event: EventView)
        ensures
            self.phase().rank() <= self.next(config, event).0.phase().rank(),
    {
    }

    /// The worker samples only after both announcements have been taken, the
    /// temperature's first and the pressure's second, and it made them in
    /// answer to the first two events.
    pub proof fn lemma_sampling_follows_both_announcements(
        config: ConfigView,
        events: Seq<EventView>,
    )
        requires
            WorkerState::Starting.after(config, events).phase() == Phase::Sampling,
        ensures
            events.len() >= 3,
            events[0] == EventView::Begin,
            events[1] == EventView::Published,
            events[2] == EventView::Published,
            WorkerState::Starting.action_at(config, events, 0) == ActionView::Publish(
                spec_discovery_publication(config, SensorComponent::Temperature),
            ),
            WorkerState::Starting.action_at(config, events, 1) == ActionView::Publish(
                spec_discovery_publication(config, SensorComponent::Pressure),
            ),
    {
        Self::lemma_start_of_a_run(config, events);
        let start = WorkerState::Starting;
        assert(events.take(0) =~= Seq::<EventView>::empty());
        assert(events.take(1) =~= seq![events[0]]);
        assert(seq![events[0]].drop_last() =~= Seq::<EventView>::empty());
        assert(start.after(config, events.take(0)) == start);
        assert(start.after(config, events.take(1)) == start.next(config, events[0]).0);
    }

    /// How a run from the start can have come to where it is: an announcing
    /// worker has seen nothing but the events that brought it there, and a
    /// sampling worker has seen them first.
    proof fn lemma_start_of_a_run(config: ConfigView, events: Seq<EventView>)
        ensures
            ({
                let state = WorkerState::Starting.after(config, events);
                &&& state == WorkerState::Starting ==> events.len() == 0
                &&& state == WorkerState::Announcing(SensorComponent::Temperature) ==> events
                    =~= seq![EventView::Begin]
                &&& state == WorkerState::Announcing(SensorComponent::Pressure) ==> events
                    =~= seq![EventView::Begin, EventView::Published]
                &&& state.phase() == Phase::Sampling ==> events.len() >= 3 && events.take(3)
                    =~= seq![EventView::Begin, EventView::Published, EventView::Published]
            }),
        decreases events.len(),
    {
        if events.len() > 0 {
            let earlier = events.drop_last();
            Self::lemma_start_of_a_run(config, earlier);
            let before = WorkerState::Starting.after(config, earlier);
            if before.phase() == Phase::Sampling {
                assert(events.take(3) =~= earlier.take(3));
            }
        }
    }

    /// Each component is announced once in a run from the start, and in its
    /// turn: the temperature in answer to the first event, the pressure in
    /// answer to the second, and neither ever again.
    pub proof fn lemma_announced_once(
        config: ConfigView,
        events: Seq<EventView>,
        at: int,
        component: SensorComponent,
    )
        requires
            0 <= at < events.len(),
            WorkerState::Starting.action_at(config, events, at) == ActionView::Publish(
                spec_discovery_publication(config, component),
            ),
        ensures
            component == SensorComponent::Temperature ==> at == 0,
            component == SensorComponent::Pressure ==> at == 1,
    {
        lemma_topics_are_distinct(config.room);
        Self::lemma_start_of_a_run(config, events.take(at));
    }

    /// One round of sampling: from rest, the end of the interval, a sample
    /// and its publication bring the worker back to rest, having measured,
    /// published that sample, and asked for the next interval.
    pub proof fn lemma_sampling_round(config: ConfigView, reading: ReadingView)
        ensures
            ({
                let measuring = WorkerState::Resting.next(config, EventView::Rested);
                let reporting = measuring.0.next(config, EventView::Measured(reading));
                let resting = reporting.0.next(config, EventView::Published);
                &&& measuring.1 == ActionView::Measure
                &&& reporting.1 == ActionView::Publish(spec_state_publication(config, reading))
                &&& resting == (WorkerState::Resting, ActionView::Rest(SAMPLING_INTERVAL_SECS))
            }),
    {
    }

    /// A failed worker stays failed, for the same reason, whatever happens.
    pub proof fn lemma_failed_is_final(self, config: ConfigView, events: Seq<EventView>)
        requires
            self.phase() == Phase::Failed,
        ensures
            self.after(config, events) == self,
        decreases events.len(),
    {
        if events.len() > 0 {
            self.lemma_failed_is_final(config, events.drop_last());
        }
    }

    /// After a failed measurement nothing is published any more: every
    /// later event is answered with the end of the worker.
    pub proof fn lemma_silent_after_failed_measurement(
        self,
        config: ConfigView,
        later: Seq<EventView>,
        at: int,
    )
        requires
            0 <= at < later.len(),
        ensures
            self.next(config, EventView::MeasureFailed).0.action_at(config, later, at) is Stop,
    {
        let stopped = self.next(config, EventView::MeasureFailed).0;
        stopped.lemma_failed_is_final(config, later.take(at));
    }
}

} // verus!
