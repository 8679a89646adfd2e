use vstd::prelude::*;
use crate::errors::SensorError;
use crate::models::TemperatureData;

verus! {

/// A place that takes readings as they come, without a question for what
/// it holds already.
pub trait TempWriter {
    /// Writes a batch of readings.
    fn write_temps(&self, data: Vec<TemperatureData>) -> Result<(), SensorError>;
}

} // verus!
