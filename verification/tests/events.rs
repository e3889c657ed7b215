use bmp180_bridge::config::{BridgeConfig, ConnectionSettings, KEEP_ALIVE_SECS, REQUEST_CAPACITY};
use bmp180_bridge::events::{handle_notification, LogRecord, Notification, Severity};
use bmp180_bridge::logging::{effective_log_level, LogLevel};
use bmp180_bridge::worker::{WorkerAction, WorkerEvent, WorkerFailure, WorkerState};

fn config(log_level: Option<&str>) -> BridgeConfig {
    BridgeConfig {
        host: String::from("broker.local"),
        port: 8883,
        username: String::from("bridge"),
        room: String::from("kitchen"),
        identifier: String::from("bmp180-1"),
        name: String::from("Kitchen Sensor"),
        log_level: log_level.map(String::from),
    }
}

#[test]
fn a_connection_is_recorded_for_debugging() {
    assert_eq!(
        handle_notification(&Notification::Connected(String::from("Kitchen Sensor"))),
        LogRecord {
            severity: Severity::Debug,
            message: String::from("Connected to MQTT broker Kitchen Sensor"),
        }
    );
}

#[test]
fn another_event_is_recorded_in_full() {
    assert_eq!(
        handle_notification(&Notification::Event(String::from("Incoming(PingResp)"))),
        LogRecord {
            severity: Severity::Debug,
            message: String::from("Got event: Incoming(PingResp)"),
        }
    );
}

#[test]
fn an_error_is_recorded_as_an_error() {
    assert_eq!(
        handle_notification(&Notification::Error(String::from("Network timeout"))),
        LogRecord {
            severity: Severity::Error,
            message: String::from("Got an error when polling for events: Network timeout"),
        }
    );
}

#[test]
fn the_loop_records_whatever_comes_after_an_error() {
    let notifications = vec![
        Notification::Error(String::from("I/O: connection refused")),
        Notification::Error(String::from("Network timeout")),
        Notification::Connected(String::from("Kitchen Sensor")),
        Notification::Event(String::from("Outgoing(PingReq)")),
        Notification::Error(String::from("Flush timeout")),
        Notification::Event(String::from("Incoming(PingResp)")),
    ];
    let records: Vec<LogRecord> = notifications.iter().map(handle_notification).collect();
    assert_eq!(records.len(), notifications.len());
    let severities: Vec<Severity> = records.iter().map(|r| r.severity).collect();
    assert_eq!(
        severities,
        vec![
            Severity::Error,
            Severity::Error,
            Severity::Debug,
            Severity::Debug,
            Severity::Error,
            Severity::Debug,
        ]
    );
    assert_eq!(records[5].message, "Got event: Incoming(PingResp)");
}

#[test]
fn the_command_line_decides_the_log_level() {
    assert_eq!(effective_log_level(Some("debug"), &config(Some("error"))), Some(LogLevel::Debug));
    assert_eq!(effective_log_level(Some("Trace"), &config(None)), Some(LogLevel::Trace));
}

#[test]
fn the_configuration_decides_the_log_level_otherwise() {
    assert_eq!(effective_log_level(None, &config(Some("error"))), Some(LogLevel::Error));
    assert_eq!(effective_log_level(None, &config(Some("WARN"))), Some(LogLevel::Warn));
}

#[test]
fn the_log_level_is_info_when_nothing_is_said() {
    assert_eq!(effective_log_level(None, &config(None)), Some(LogLevel::Info));
}

#[test]
fn level_names_in_any_case() {
    let cases = [
        ("off", LogLevel::Off),
        ("OFF", LogLevel::Off),
        ("Error", LogLevel::Error),
        ("wArN", LogLevel::Warn),
        ("info", LogLevel::Info),
        ("INFO", LogLevel::Info),
        ("Debug", LogLevel::Debug),
        ("trace", LogLevel::Trace),
    ];
    for (name, level) in cases {
        assert_eq!(effective_log_level(Some(name), &config(None)), Some(level));
    }
}

#[test]
fn what_names_no_level() {
    for name in ["", "verbose", "warning", " info", "info ", "inf", "debug1", "0"] {
        assert_eq!(effective_log_level(Some(name), &config(Some("info"))), None);
    }
    assert_eq!(effective_log_level(None, &config(Some("loud"))), None);
}

#[test]
fn connection_settings_of_a_configuration() {
    assert_eq!(
        config(None).connection_settings(),
        ConnectionSettings {
            client_id: String::from("Kitchen Sensor"),
            host: String::from("broker.local"),
            port: 8883,
            username: String::from("bridge"),
            keep_alive_secs: 5,
            request_capacity: 10,
        }
    );
    assert_eq!(KEEP_ALIVE_SECS, 5);
    assert_eq!(REQUEST_CAPACITY, 10);
}

#[test]
fn the_loop_goes_on_after_the_worker_has_failed() {
    let config = config(None);
    let mut state = WorkerState::Starting;
    let mut last = None;
    for event in [
        WorkerEvent::Begin,
        WorkerEvent::Published,
        WorkerEvent::Published,
        WorkerEvent::Rested,
        WorkerEvent::MeasureFailed,
    ] {
        let (next, action) = state.step(&config, event);
        state = next;
        last = Some(action);
    }
    assert_eq!(state, WorkerState::Failed(WorkerFailure::Sensor));
    assert_eq!(last, Some(WorkerAction::Stop(WorkerFailure::Sensor)));
    let mut recorded = Vec::new();
    for n in 0..50 {
        let notification = if n % 3 == 0 {
            Notification::Error(format!("Network timeout {}", n))
        } else {
            Notification::Event(format!("Incoming(PingResp) {}", n))
        };
        recorded.push(handle_notification(&notification));
    }
    assert_eq!(recorded.len(), 50);
    assert_eq!(recorded[48].message, "Got an error when polling for events: Network timeout 48");
    assert_eq!(recorded[49].message, "Got event: Incoming(PingResp) 49");
    assert_eq!(state, WorkerState::Failed(WorkerFailure::Sensor));
}
