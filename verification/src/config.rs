//! What the bridge is configured with.

use vstd::prelude::*;

verus! {

/// The settings of one bridge, read once before the worker starts.
///
/// The broker password is not among them. It stays with the program, inside
/// its secret holder, and goes from there straight into the connection; no
/// function of this library ever sees it.
#[derive(Debug)]
pub struct BridgeConfig {
    /// The broker's host name or address.
    pub host: String,
    /// The broker's port.
    pub port: u16,
    /// The user the bridge logs in as.
    pub username: String,
    /// The room the sensor is in; part of every topic.
    pub room: String,
    /// What identifies the device to the automation platform.
    pub identifier: String,
    /// The name the device is shown under.
    pub name: String,
    /// The log level the configuration asks for, if any.
    pub log_level: Option<String>,
}

/// A [`BridgeConfig`] as plain values.
pub struct ConfigView {
    pub host: Seq<char>,
    pub port: u16,
    pub username: Seq<char>,
    pub room: Seq<char>,
    pub identifier: Seq<char>,
    pub name: Seq<char>,
    pub log_level: Option<Seq<char>>,
}

impl View for BridgeConfig {
    type V = ConfigView;

    open spec fn view(&self) -> ConfigView {
        ConfigView {
            host: self.host@,
            port: self.port,
            username: self.username@,
            room: self.room@,
            identifier: self.identifier@,
            name: self.name@,
            log_level: match self.log_level {
                Some(level) => Some(level@),
                None => None,
            },
        }
    }
}

/// The seconds of silence after which the client pings the broker.
pub const KEEP_ALIVE_SECS: u64 = 5;

/// How many requests may wait between the worker and the connection.
pub const REQUEST_CAPACITY: usize = 10;

/// What the broker connection is opened with, the password apart.
#[derive(Clone, Debug, PartialEq, Eq)]
pub struct ConnectionSettings {
    pub client_id: String,
    pub host: String,
    pub port: u16,
    pub username: String,
    pub keep_alive_secs: u64,
    pub request_capacity: usize,
}

/// [`ConnectionSettings`] as plain values.
pub struct ConnectionView {
    pub client_id: Seq<char>,
    pub host: Seq<char>,
    pub port: u16,
    pub username: Seq<char>,
    pub keep_alive_secs: u64,
    pub request_capacity: usize,
}

impl View for ConnectionSettings {
    type V = ConnectionView;

    open spec fn view(&self) -> ConnectionView {
        ConnectionView {
            client_id: self.client_id@,
            host: self.host@,
            port: self.port,
            username: self.username@,
            keep_alive_secs: self.keep_alive_secs,
            request_capacity: self.request_capacity,
        }
    }
}

impl ConfigView {
    /// The bridge connects under the device's name, to the configured broker
    /// and user, with the fixed keep-alive and queue capacity.
    pub open spec fn connection(self) -> ConnectionView {
        ConnectionView {
            client_id: self.name,
            host: self.host,
            port: self.port,
            username: self.username,
            keep_alive_secs: KEEP_ALIVE_SECS,
            request_capacity: REQUEST_CAPACITY,
        }
    }
}

impl BridgeConfig {
    /// What to open the broker connection with.
    pub fn connection_settings(&self) -> (settings: ConnectionSettings)
        ensures
            settings@ == self@.connection(),
    {
        ConnectionSettings {
            client_id: self.name.clone(),
            host: self.host.clone(),
            port: self.port,
            username: self.username.clone(),
            keep_alive_secs: KEEP_ALIVE_SECS,
            request_capacity: REQUEST_CAPACITY,
        }
    }
}

} // verus!
