use bmp180_bridge::component::SensorComponent;
use bmp180_bridge::config::BridgeConfig;
use bmp180_bridge::json::scan::{is_number_str, is_plain_str};
use bmp180_bridge::message::{
    device_object, discovery_message, state_message, unique_id, value_template,
};

fn config(room: &str, identifier: &str, name: &str) -> BridgeConfig {
    BridgeConfig {
        host: String::from("broker.local"),
        port: 1883,
        username: String::from("bridge"),
        room: String::from(room),
        identifier: String::from(identifier),
        name: String::from(name),
        log_level: None,
    }
}

fn expected_discovery(config: &BridgeConfig, class: &str, path: &str, unit: &str) -> String {
    format!(
        "{{  \n   \"device_class\":\"{0}\",\n   \"state_topic\":\"homeassistant/sensor/{2}/state\",\n   \"unit_of_measurement\":\"{5}\",\n   \"value_template\":\"{{{{ {1} }}}}\",\n   \"unique_id\":\"{3}_{0}\",\n   \"device\":{{\n      \"identifiers\":[\n          \"{3}\"\n      ],\n      \"name\":\"{4}\"\n    }}\n}}\n",
        class, path, config.room, config.identifier, config.name, unit
    )
}

fn expected_state(temperature: f32, pressure: f32) -> String {
    format!(
        "{{  \n   \"temperature\": {},\n   \"pressure\": {}\n}}\n",
        temperature, pressure
    )
}

fn parse(text: &str) -> serde_json::Value {
    serde_json::from_str(text).expect("the payload is JSON")
}

fn text_of<'a>(value: &'a serde_json::Value, field: &str) -> &'a str {
    value.get(field).and_then(|v| v.as_str()).expect("a string member")
}

#[test]
fn discovery_message_for_temperature_is_written_out_exactly() {
    let config = config("kitchen", "bmp180-1", "Kitchen Sensor");
    let message = discovery_message(&config, SensorComponent::Temperature);
    let expected = "{  \n   \"device_class\":\"temperature\",\n   \"state_topic\":\"homeassistant/sensor/kitchen/state\",\n   \"unit_of_measurement\":\"\u{b0}C\",\n   \"value_template\":\"{{ value_json.temperature }}\",\n   \"unique_id\":\"bmp180-1_temperature\",\n   \"device\":{\n      \"identifiers\":[\n          \"bmp180-1\"\n      ],\n      \"name\":\"Kitchen Sensor\"\n    }\n}\n";
    assert_eq!(message, expected);
}

#[test]
fn discovery_message_for_pressure_is_written_out_exactly() {
    let config = config("den", "bmp180-1", "Den Sensor");
    let message = discovery_message(&config, SensorComponent::Pressure);
    let expected = "{  \n   \"device_class\":\"pressure\",\n   \"state_topic\":\"homeassistant/sensor/den/state\",\n   \"unit_of_measurement\":\"kPa\",\n   \"value_template\":\"{{ value_json.pressure }}\",\n   \"unique_id\":\"bmp180-1_pressure\",\n   \"device\":{\n      \"identifiers\":[\n          \"bmp180-1\"\n      ],\n      \"name\":\"Den Sensor\"\n    }\n}\n";
    assert_eq!(message, expected);
}

#[test]
fn discovery_message_follows_the_template_for_many_configurations() {
    let rooms = ["kitchen", "den", "", "Living Room", "k\u{fc}che", "a/b"];
    let identifiers = ["bmp180-1", "x", "", "sensor 7"];
    let names = ["Kitchen Sensor", "", "B\u{fc}ro", "n"];
    for room in rooms {
        for identifier in identifiers {
            for name in names {
                let config = config(room, identifier, name);
                assert_eq!(
                    discovery_message(&config, SensorComponent::Temperature),
                    expected_discovery(&config, "temperature", "value_json.temperature", "\u{b0}C")
                );
                assert_eq!(
                    discovery_message(&config, SensorComponent::Pressure),
                    expected_discovery(&config, "pressure", "value_json.pressure", "kPa")
                );
            }
        }
    }
}

#[test]
fn discovery_message_is_json_with_the_class_and_the_unique_id() {
    let rooms = ["kitchen", "den", "Living Room", "k\u{fc}che"];
    let identifiers = ["bmp180-1", "x", "sensor 7"];
    let names = ["Kitchen Sensor", "B\u{fc}ro"];
    for room in rooms {
        for identifier in identifiers {
            for name in names {
                assert!(is_plain_str(room) && is_plain_str(identifier) && is_plain_str(name));
                let config = config(room, identifier, name);
                for component in [SensorComponent::Temperature, SensorComponent::Pressure] {
                    let value = parse(&discovery_message(&config, component));
                    let class = component.label().to_lowercase();
                    assert_eq!(text_of(&value, "device_class"), class);
                    assert_eq!(text_of(&value, "unique_id"), format!("{}_{}", identifier, class));
                    assert_eq!(
                        text_of(&value, "state_topic"),
                        format!("homeassistant/sensor/{}/state", room)
                    );
                    let device = value.get("device").expect("a device member");
                    assert_eq!(text_of(device, "name"), name);
                    let identifiers = device
                        .get("identifiers")
                        .and_then(|v| v.as_array())
                        .expect("an array of identifiers");
                    assert_eq!(identifiers.len(), 1);
                    assert_eq!(identifiers[0].as_str(), Some(identifier));
                    assert_eq!(value.as_object().map(|o| o.len()), Some(6));
                    assert_eq!(device.as_object().map(|o| o.len()), Some(2));
                }
            }
        }
    }
}

#[test]
fn discovery_message_for_pressure_in_the_den_gives_unit_and_template() {
    let config = config("den", "bmp180-1", "Den Sensor");
    let value = parse(&discovery_message(&config, SensorComponent::Pressure));
    assert_eq!(text_of(&value, "unit_of_measurement"), "kPa");
    assert_eq!(text_of(&value, "value_template"), "{{ value_json.pressure }}");
    assert!(text_of(&value, "value_template").contains("value_json.pressure"));
}

#[test]
fn discovery_message_for_temperature_gives_unit_and_template() {
    let config = config("den", "bmp180-1", "Den Sensor");
    let value = parse(&discovery_message(&config, SensorComponent::Temperature));
    assert_eq!(text_of(&value, "unit_of_measurement"), "\u{b0}C");
    assert_eq!(text_of(&value, "value_template"), "{{ value_json.temperature }}");
}

#[test]
fn discovery_message_does_not_escape() {
    let config = config("kitchen", "bmp\"180", "Kitchen");
    assert!(!is_plain_str("bmp\"180"));
    let message = discovery_message(&config, SensorComponent::Temperature);
    assert!(message.contains("\"unique_id\":\"bmp\"180_temperature\""));
    assert!(serde_json::from_str::<serde_json::Value>(&message).is_err());
}

#[test]
fn device_object_is_written_out_exactly() {
    let config = config("kitchen", "bmp180-1", "Kitchen Sensor");
    assert_eq!(
        device_object(&config),
        "{\n      \"identifiers\":[\n          \"bmp180-1\"\n      ],\n      \"name\":\"Kitchen Sensor\"\n    }"
    );
}

#[test]
fn value_template_and_unique_id() {
    assert_eq!(value_template(SensorComponent::Temperature), "{{ value_json.temperature }}");
    assert_eq!(value_template(SensorComponent::Pressure), "{{ value_json.pressure }}");
    assert_eq!(unique_id("bmp180-1", SensorComponent::Temperature), "bmp180-1_temperature");
    assert_eq!(unique_id("", SensorComponent::Pressure), "_pressure");
}

#[test]
fn state_message_is_written_out_exactly() {
    assert_eq!(
        state_message("21.5", "101.325"),
        "{  \n   \"temperature\": 21.5,\n   \"pressure\": 101.325\n}\n"
    );
}

#[test]
fn state_message_carries_both_numbers() {
    let samples: [(f32, f32); 8] = [
        (21.5, 101.325),
        (0.0, 0.0),
        (-0.0, 0.0),
        (-12.25, 98.7),
        (23.4, 100.0),
        (-40.0, 30.0),
        (1.0e-7, 3.4e38),
        (85.0, 110.0),
    ];
    for (temperature, pressure) in samples {
        let t = format!("{}", temperature);
        let p = format!("{}", pressure);
        assert!(is_number_str(&t), "{} is a number", t);
        assert!(is_number_str(&p), "{} is a number", p);
        let message = state_message(&t, &p);
        assert_eq!(message, expected_state(temperature, pressure));
        let value = parse(&message);
        let members = value.as_object().expect("an object");
        assert_eq!(members.len(), 2);
        let read_t = members["temperature"].as_f64().expect("a number") as f32;
        let read_p = members["pressure"].as_f64().expect("a number") as f32;
        assert_eq!(read_t, temperature);
        assert_eq!(read_p, pressure);
    }
}

#[test]
fn state_message_of_what_is_no_number_is_no_json() {
    let t = format!("{}", f32::NAN);
    let p = format!("{}", f32::INFINITY);
    assert!(!is_number_str(&t));
    assert!(!is_number_str(&p));
    let message = state_message(&t, &p);
    assert_eq!(message, "{  \n   \"temperature\": NaN,\n   \"pressure\": inf\n}\n");
    assert!(serde_json::from_str::<serde_json::Value>(&message).is_err());
}

#[test]
fn messages_come_out_the_same_every_time() {
    let config = config("kitchen", "bmp180-1", "Kitchen Sensor");
    for component in [SensorComponent::Temperature, SensorComponent::Pressure] {
        let first = discovery_message(&config, component);
        let second = discovery_message(&config, component);
        assert_eq!(first.as_bytes(), second.as_bytes());
    }
    let first = state_message("21.5", "101.325");
    let second = state_message("21.5", "101.325");
    assert_eq!(first.as_bytes(), second.as_bytes());
}
