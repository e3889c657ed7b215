//! The topics the bridge publishes to.

use crate::component::SensorComponent;
use vstd::prelude::*;
use vstd::string::*;

verus! {

/// `homeassistant/sensor/{room}{Component}/config`: the topic on which one
/// component of the room's sensor is announced.
pub open spec fn spec_discovery_topic(room: Seq<char>, component: SensorComponent) -> Seq<char> {
    "homeassistant/sensor/"@ + room + component.spec_label() + "/config"@
}

/// `homeassistant/sensor/{room}/state`: the one topic that carries the
/// measurements of both components.
pub open spec fn spec_state_topic(room: Seq<char>) -> Seq<char> {
    "homeassistant/sensor/"@ + room + "/state"@
}

/// The topic on which `component` of the sensor in `room` is announced.
pub fn discovery_topic(room: &str, component: SensorComponent) -> (topic: String)
    ensures
        topic@ == spec_discovery_topic(room@, component),
{
    let mut topic = String::from_str("homeassistant/sensor/");
    topic.append(room);
    topic.append(component.label());
    topic.append("/config");
    topic
}

/// The topic that carries the measurements of the sensor in `room`.
pub fn state_topic(room: &str) -> (topic: String)
    ensures
        topic@ == spec_state_topic(room@),
{
    let mut topic = String::from_str("homeassistant/sensor/");
    topic.append(room);
    topic.append("/state");
    topic
}

/// No two topics of a room are the same: the announcements of the two
/// components and the measurements each have a topic of their own, so what
/// the broker retains of one is never replaced by another.
pub proof fn lemma_topics_are_distinct(room: Seq<char>)
    ensures
        spec_discovery_topic(room, SensorComponent::Temperature) != spec_discovery_topic(
            room,
            SensorComponent::Pressure,
        ),
        spec_discovery_topic(room, SensorComponent::Temperature) != spec_state_topic(room),
        spec_discovery_topic(room, SensorComponent::Pressure) != spec_state_topic(room),
{
    reveal_strlit("homeassistant/sensor/");
    reveal_strlit("Temperature");
    reveal_strlit("Pressure");
    reveal_strlit("/config");
    reveal_strlit("/state");
    assert(spec_discovery_topic(room, SensorComponent::Temperature).len() == room.len() + 39);
    assert(spec_discovery_topic(room, SensorComponent::Pressure).len() == room.len() + 36);
    assert(spec_state_topic(room).len() == room.len() + 27);
}

} // verus!
