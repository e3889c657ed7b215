//! The logic of a bridge from a BMP180 temperature and pressure sensor to an
//! MQTT broker, in the conventions of Home Assistant's discovery: the topics
//! and payloads it publishes, the steps of its sampling worker, and what its
//! connection loop does with each notification.
//!
//! Nothing here touches the sensor or the network. The program around this
//! library performs each action and reports the outcome back.

pub mod ascii;
pub mod bridge;
pub mod component;
pub mod config;
pub mod events;
pub mod json;
pub mod logging;
pub mod message;
pub mod publication;
pub mod reading;
pub mod topic;
pub mod worker;
