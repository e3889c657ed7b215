use bmp180_bridge::component::SensorComponent;
use bmp180_bridge::config::BridgeConfig;
use bmp180_bridge::message::{discovery_message, state_message};
use bmp180_bridge::publication::{
    discovery_publication, state_publication, DeliveryMode, Publication,
};
use bmp180_bridge::reading::Reading;
use bmp180_bridge::worker::{
    WorkerAction, WorkerEvent, WorkerFailure, WorkerState, SAMPLING_INTERVAL_SECS,
};

fn config() -> BridgeConfig {
    BridgeConfig {
        host: String::from("broker.local"),
        port: 1883,
        username: String::from("bridge"),
        room: String::from("kitchen"),
        identifier: String::from("bmp180-1"),
        name: String::from("Kitchen Sensor"),
        log_level: None,
    }
}

fn reading(temperature: &str, pressure: &str) -> Reading {
    Reading { temperature: String::from(temperature), pressure: String::from(pressure) }
}

fn all_events() -> Vec<WorkerEvent> {
    vec![
        WorkerEvent::Begin,
        WorkerEvent::Published,
        WorkerEvent::PublishFailed,
        WorkerEvent::Rested,
        WorkerEvent::Measured(reading("21.5", "101.325")),
        WorkerEvent::MeasureFailed,
    ]
}

fn all_states() -> Vec<WorkerState> {
    vec![
        WorkerState::Starting,
        WorkerState::Announcing(SensorComponent::Temperature),
        WorkerState::Announcing(SensorComponent::Pressure),
        WorkerState::Resting,
        WorkerState::Measuring,
        WorkerState::Reporting,
        WorkerState::Failed(WorkerFailure::Announcement(SensorComponent::Temperature)),
        WorkerState::Failed(WorkerFailure::Announcement(SensorComponent::Pressure)),
        WorkerState::Failed(WorkerFailure::Sensor),
        WorkerState::Failed(WorkerFailure::Report),
        WorkerState::Failed(WorkerFailure::OutOfTurn),
    ]
}

fn run(events: Vec<WorkerEvent>) -> (WorkerState, Vec<WorkerAction>) {
    let config = config();
    let mut state = WorkerState::Starting;
    let mut actions = Vec::new();
    for event in events {
        let (next, action) = state.step(&config, event);
        state = next;
        actions.push(action);
    }
    (state, actions)
}

#[test]
fn publications_are_retained_and_delivered_at_most_once() {
    let config = config();
    for component in [SensorComponent::Temperature, SensorComponent::Pressure] {
        let publication = discovery_publication(&config, component);
        assert_eq!(publication.delivery, DeliveryMode::AtMostOnce);
        assert!(publication.retain);
        assert_eq!(publication.payload, discovery_message(&config, component));
    }
    assert_eq!(
        discovery_publication(&config, SensorComponent::Temperature).topic,
        "homeassistant/sensor/kitchenTemperature/config"
    );
    assert_eq!(
        discovery_publication(&config, SensorComponent::Pressure).topic,
        "homeassistant/sensor/kitchenPressure/config"
    );
    let state = state_publication(&config, &reading("21.5", "101.325"));
    assert_eq!(
        state,
        Publication {
            topic: String::from("homeassistant/sensor/kitchen/state"),
            delivery: DeliveryMode::AtMostOnce,
            retain: true,
            payload: state_message("21.5", "101.325"),
        }
    );
}

#[test]
fn worker_announces_temperature_then_pressure_then_samples() {
    let config = config();
    let (state, actions) = run(vec![
        WorkerEvent::Begin,
        WorkerEvent::Published,
        WorkerEvent::Published,
        WorkerEvent::Rested,
        WorkerEvent::Measured(reading("21.5", "101.325")),
        WorkerEvent::Published,
        WorkerEvent::Rested,
        WorkerEvent::Measured(reading("-3.25", "99.5")),
        WorkerEvent::Published,
    ]);
    assert_eq!(state, WorkerState::Resting);
    assert_eq!(
        actions,
        vec![
            WorkerAction::Publish(discovery_publication(&config, SensorComponent::Temperature)),
            WorkerAction::Publish(discovery_publication(&config, SensorComponent::Pressure)),
            WorkerAction::Rest(1),
            WorkerAction::Measure,
            WorkerAction::Publish(state_publication(&config, &reading("21.5", "101.325"))),
            WorkerAction::Rest(1),
            WorkerAction::Measure,
            WorkerAction::Publish(state_publication(&config, &reading("-3.25", "99.5"))),
            WorkerAction::Rest(1),
        ]
    );
    assert_eq!(SAMPLING_INTERVAL_SECS, 1);
}

#[test]
fn worker_fails_when_the_first_announcement_fails() {
    let (state, actions) = run(vec![WorkerEvent::Begin, WorkerEvent::PublishFailed]);
    let failure = WorkerFailure::Announcement(SensorComponent::Temperature);
    assert_eq!(state, WorkerState::Failed(failure));
    assert_eq!(actions.len(), 2);
    assert_eq!(actions[1], WorkerAction::Stop(failure));
}

#[test]
fn worker_fails_when_the_second_announcement_fails() {
    let (state, actions) =
        run(vec![WorkerEvent::Begin, WorkerEvent::Published, WorkerEvent::PublishFailed]);
    let failure = WorkerFailure::Announcement(SensorComponent::Pressure);
    assert_eq!(state, WorkerState::Failed(failure));
    assert_eq!(actions[2], WorkerAction::Stop(failure));
}

#[test]
fn worker_fails_when_the_sensor_fails_and_publishes_nothing() {
    let (state, actions) = run(vec![
        WorkerEvent::Begin,
        WorkerEvent::Published,
        WorkerEvent::Published,
        WorkerEvent::Rested,
        WorkerEvent::MeasureFailed,
        WorkerEvent::Published,
        WorkerEvent::Rested,
        WorkerEvent::Measured(reading("21.5", "101.325")),
    ]);
    assert_eq!(state, WorkerState::Failed(WorkerFailure::Sensor));
    for action in &actions[4..] {
        assert_eq!(*action, WorkerAction::Stop(WorkerFailure::Sensor));
    }
}

#[test]
fn worker_fails_when_the_report_fails() {
    let (state, actions) = run(vec![
        WorkerEvent::Begin,
        WorkerEvent::Published,
        WorkerEvent::Published,
        WorkerEvent::Rested,
        WorkerEvent::Measured(reading("21.5", "101.325")),
        WorkerEvent::PublishFailed,
    ]);
    assert_eq!(state, WorkerState::Failed(WorkerFailure::Report));
    assert_eq!(actions[5], WorkerAction::Stop(WorkerFailure::Report));
}

#[test]
fn failed_measurement_never_leads_to_a_publication() {
    let config = config();
    for state in all_states() {
        let (next, action) = state.step(&config, WorkerEvent::MeasureFailed);
        assert!(matches!(next, WorkerState::Failed(_)));
        assert!(matches!(action, WorkerAction::Stop(_)));
        for event in all_events() {
            let (after, later) = next.step(&config, event);
            assert_eq!(after, next);
            assert!(matches!(later, WorkerAction::Stop(_)));
        }
    }
}

#[test]
fn while_sampling_a_publication_answers_a_sample_only() {
    let config = config();
    for state in [WorkerState::Resting, WorkerState::Measuring, WorkerState::Reporting] {
        for event in all_events() {
            let measured = matches!(event, WorkerEvent::Measured(_));
            let (_, action) = state.step(&config, event);
            if let WorkerAction::Publish(publication) = action {
                assert!(measured);
                assert_eq!(state, WorkerState::Measuring);
                assert_eq!(
                    publication,
                    state_publication(&config, &reading("21.5", "101.325"))
                );
            }
        }
    }
}

#[test]
fn an_event_out_of_turn_ends_the_worker() {
    let config = config();
    let out_of_turn = WorkerFailure::OutOfTurn;
    let cases = vec![
        (WorkerState::Starting, WorkerEvent::Published),
        (WorkerState::Starting, WorkerEvent::Rested),
        (WorkerState::Announcing(SensorComponent::Temperature), WorkerEvent::Begin),
        (WorkerState::Announcing(SensorComponent::Pressure), WorkerEvent::MeasureFailed),
        (WorkerState::Resting, WorkerEvent::Published),
        (WorkerState::Resting, WorkerEvent::PublishFailed),
        (WorkerState::Measuring, WorkerEvent::Rested),
        (WorkerState::Reporting, WorkerEvent::Measured(reading("1", "2"))),
    ];
    for (state, event) in cases {
        let (next, action) = state.step(&config, event);
        assert_eq!(next, WorkerState::Failed(out_of_turn));
        assert_eq!(action, WorkerAction::Stop(out_of_turn));
    }
}

#[test]
fn a_failed_worker_stays_failed() {
    let config = config();
    for failure in [
        WorkerFailure::Announcement(SensorComponent::Temperature),
        WorkerFailure::Sensor,
        WorkerFailure::Report,
        WorkerFailure::OutOfTurn,
    ] {
        for event in all_events() {
            let (next, action) = WorkerState::Failed(failure).step(&config, event);
            assert_eq!(next, WorkerState::Failed(failure));
            assert_eq!(action, WorkerAction::Stop(failure));
        }
    }
}

#[test]
fn readings_that_are_numbers() {
    assert!(reading("21.5", "101.325").is_numeric());
    assert!(reading("-0", "0").is_numeric());
    assert!(!reading("NaN", "101.325").is_numeric());
    assert!(!reading("21.5", "inf").is_numeric());
    assert!(!reading("", "").is_numeric());
}
