use bmp180_bridge::component::SensorComponent;
use bmp180_bridge::topic::{discovery_topic, state_topic};

#[test]
fn topics_of_the_kitchen() {
    assert_eq!(
        discovery_topic("kitchen", SensorComponent::Temperature),
        "homeassistant/sensor/kitchenTemperature/config"
    );
    assert_eq!(state_topic("kitchen"), "homeassistant/sensor/kitchen/state");
}

#[test]
fn discovery_topic_of_the_pressure() {
    assert_eq!(
        discovery_topic("kitchen", SensorComponent::Pressure),
        "homeassistant/sensor/kitchenPressure/config"
    );
    assert_eq!(
        discovery_topic("den", SensorComponent::Pressure),
        "homeassistant/sensor/denPressure/config"
    );
}

#[test]
fn topics_of_an_empty_room() {
    assert_eq!(
        discovery_topic("", SensorComponent::Temperature),
        "homeassistant/sensor/Temperature/config"
    );
    assert_eq!(state_topic(""), "homeassistant/sensor//state");
}

#[test]
fn names_of_the_components() {
    assert_eq!(SensorComponent::Temperature.label(), "Temperature");
    assert_eq!(SensorComponent::Pressure.label(), "Pressure");
    assert_eq!(SensorComponent::Temperature.device_class(), "temperature");
    assert_eq!(SensorComponent::Pressure.device_class(), "pressure");
    assert_eq!(SensorComponent::Temperature.unit(), "\u{b0}C");
    assert_eq!(SensorComponent::Pressure.unit(), "kPa");
    assert_eq!(SensorComponent::Temperature.value_path(), "value_json.temperature");
    assert_eq!(SensorComponent::Pressure.value_path(), "value_json.pressure");
}

#[test]
fn device_class_is_the_label_in_lower_case() {
    for component in [SensorComponent::Temperature, SensorComponent::Pressure] {
        assert_eq!(component.device_class(), component.label().to_ascii_lowercase());
    }
}
