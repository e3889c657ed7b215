//! The two quantities the sensor measures, and the names each goes by.

use crate::ascii::ascii_lowercase;
use vstd::prelude::*;
use vstd::string::*;

verus! {

/// A quantity the sensor measures. Each one is announced as an entity of its
/// own.
#[derive(Clone, Copy, Debug, PartialEq, Eq, Structural)]
pub enum SensorComponent {
    Temperature,
    Pressure,
}

impl SensorComponent {
    /// The capitalised name, as it stands in the discovery topic.
    pub open spec fn spec_label(self) -> Seq<char> {
        match self {
            SensorComponent::Temperature => "Temperature"@,
            SensorComponent::Pressure => "Pressure"@,
        }
    }

    /// The device class, which is also the field of the state payload that
    /// carries the measurement.
    pub open spec fn spec_device_class(self) -> Seq<char> {
        match self {
            SensorComponent::Temperature => "temperature"@,
            SensorComponent::Pressure => "pressure"@,
        }
    }

    /// The unit the measurement is given in.
    pub open spec fn spec_unit(self) -> Seq<char> {
        match self {
            SensorComponent::Temperature => "\u{b0}C"@,
            SensorComponent::Pressure => "kPa"@,
        }
    }

    /// The path by which a template reaches the measurement in the state
    /// payload.
    pub open spec fn spec_value_path(self) -> Seq<char> {
        "value_json."@ + self.spec_device_class()
    }

    /// The capitalised name.
    pub fn label(self) -> (s: &'static str)
        ensures
            s@ == self.spec_label(),
    {
        match self {
            SensorComponent::Temperature => "Temperature",
            SensorComponent::Pressure => "Pressure",
        }
    }

    /// The device class.
    pub fn device_class(self) -> (s: &'static str)
        ensures
            s@ == self.spec_device_class(),
    {
        match self {
            SensorComponent::Temperature => "temperature",
            SensorComponent::Pressure => "pressure",
        }
    }

    /// The unit of measurement.
    pub fn unit(self) -> (s: &'static str)
        ensures
            s@ == self.spec_unit(),
    {
        match self {
            SensorComponent::Temperature => "\u{b0}C",
            SensorComponent::Pressure => "kPa",
        }
    }

    /// The path to the measurement in the state payload.
    pub fn value_path(self) -> (s: String)
        ensures
            s@ == self.spec_value_path(),
    {
        let mut path = String::from_str("value_json.");
        path.append(self.device_class());
        path
    }

    /// The device class is the label in lower case.
    pub proof fn lemma_device_class_is_lowercase_label(self)
        ensures
            self.spec_device_class() == ascii_lowercase(self.spec_label()),
    {
        reveal_strlit("Temperature");
        reveal_strlit("temperature");
        reveal_strlit("Pressure");
        reveal_strlit("pressure");
        assert(self.spec_device_class() =~= ascii_lowercase(self.spec_label()));
    }
}

} // verus!
