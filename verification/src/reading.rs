//! One sample of the sensor.

use crate::json::number::is_number;
use crate::json::scan::is_number_str;
use vstd::prelude::*;

verus! {

/// One sample: temperature in degrees Celsius and pressure in kilopascal,
/// each as the decimal text of the measured number, the way the state
/// payload carries it.
#[derive(Clone, Debug, PartialEq, Eq)]
pub struct Reading {
    pub temperature: String,
    pub pressure: String,
}

/// A [`Reading`] as plain values.
pub struct ReadingView {
    pub temperature: Seq<char>,
    pub pressure: Seq<char>,
}

impl View for Reading {
    type V = ReadingView;

    open spec fn view(&self) -> ReadingView {
        ReadingView { temperature: self.temperature@, pressure: self.pressure@ }
    }
}

impl ReadingView {
    /// Both measurements are JSON numbers.
    pub open spec fn is_numeric(self) -> bool {
        is_number(self.temperature) && is_number(self.pressure)
    }
}

impl Reading {
    /// Whether both measurements are JSON numbers, as the text of every
    /// finite number is.
    pub fn is_numeric(&self) -> (numeric: bool)
        ensures
            numeric == self@.is_numeric(),
    {
        is_number_str(self.temperature.as_str()) && is_number_str(self.pressure.as_str())
    }
}

} // verus!
