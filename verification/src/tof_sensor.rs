//! Abstraction for the forward-looking time-of-flight distance sensor.
//!
//! The concrete sensor is a peripheral driver outside this crate (a VL53L1X
//! behind an I2C bus); the core only needs the narrow capability below: read
//! the latest range in millimeters and acknowledge the data-ready signal.

use vstd::prelude::*;

verus! {

/// Error of a distance-sensor operation. The concrete driver's error detail
/// is only ever logged, so the core models it as a single fault.
#[derive(PartialEq, Eq, Debug, Copy, Clone, Structural)]
pub enum SensorError {
    /// The sensor read or the interrupt acknowledgement failed.
    CommunicationError,
}

/// Represents a simple distance sensor.
///
/// Nothing is promised of the results: a real sensor may fail or return any
/// range, and the vehicle's safety logic must hold for every outcome.
pub trait DistanceSensor {
    /// Get the distance measured in millimeters (if available).
    fn get_distance_in_mm(&mut self) -> Result<u16, SensorError>;

    /// Acknowledge the sensor's data-ready signal.
    fn clear_interrupt(&mut self) -> Result<(), SensorError>;
}

} // verus!
