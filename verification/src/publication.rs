//! What the bridge hands to the broker.

use crate::component::SensorComponent;
use crate::config::{BridgeConfig, ConfigView};
use crate::json::syntax::{is_plain, says};
use crate::message::{
    discovery_document, discovery_message, discovery_text, state_document, state_message,
    state_text,
};
use crate::reading::{Reading, ReadingView};
use crate::topic::{discovery_topic, spec_discovery_topic, spec_state_topic, state_topic};
use vstd::prelude::*;

verus! {

/// How hard the broker and the client try to deliver a message.
#[derive(Clone, Copy, Debug, PartialEq, Eq, Structural)]
pub enum DeliveryMode {
    AtMostOnce,
    AtLeastOnce,
    ExactlyOnce,
}

/// One message for the broker.
#[derive(Clone, Debug, PartialEq, Eq)]
pub struct Publication {
    pub topic: String,
    pub delivery: DeliveryMode,
    /// Whether the broker keeps the message for subscribers to come.
    pub retain: bool,
    pub payload: String,
}

/// A [`Publication`] as plain values.
pub struct PublicationView {
    pub topic: Seq<char>,
    pub delivery: DeliveryMode,
    pub retain: bool,
    pub payload: Seq<char>,
}

impl View for Publication {
    type V = PublicationView;

    open spec fn view(&self) -> PublicationView {
        PublicationView {
            topic: self.topic@,
            delivery: self.delivery,
            retain: self.retain,
            payload: self.payload@,
        }
    }
}

/// The announcement of `component`: retained, delivered at most once, on the
/// component's discovery topic.
pub open spec fn spec_discovery_publication(
    config: ConfigView,
    component: SensorComponent,
) -> PublicationView {
    PublicationView {
        topic: spec_discovery_topic(config.room, component),
        delivery: DeliveryMode::AtMostOnce,
        retain: true,
        payload: discovery_text(config, component),
    }
}

/// The measurements of one sample: retained, delivered at most once, on the
/// room's state topic.
pub open spec fn spec_state_publication(
    config: ConfigView,
    reading: ReadingView,
) -> PublicationView {
    PublicationView {
        topic: spec_state_topic(config.room),
        delivery: DeliveryMode::AtMostOnce,
        retain: true,
        payload: state_text(reading.temperature, reading.pressure),
    }
}

/// The message that announces `component`.
pub fn discovery_publication(
    config: &BridgeConfig,
    component: SensorComponent,
) -> (publication: Publication)
    ensures
        publication@ == spec_discovery_publication(config@, component),
        is_plain(config@.room) && is_plain(config@.identifier) && is_plain(config@.name) ==> says(
            publication@.payload,
            discovery_document(config@, component),
        ),
{
    Publication {
        topic: discovery_topic(config.room.as_str(), component),
        delivery: DeliveryMode::AtMostOnce,
        retain: true,
        payload: discovery_message(config, component),
    }
}

/// The message that carries the measurements of `reading`.
pub fn state_publication(config: &BridgeConfig, reading: &Reading) -> (publication: Publication)
    ensures
        publication@ == spec_state_publication(config@, reading@),
        reading@.is_numeric() ==> says(
            publication@.payload,
            state_document(reading@.temperature, reading@.pressure),
        ),
{
    Publication {
        topic: state_topic(config.room.as_str()),
        delivery: DeliveryMode::AtMostOnce,
        retain: true,
        payload: state_message(reading.temperature.as_str(), reading.pressure.as_str()),
    }
}

} // verus!
