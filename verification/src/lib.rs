//! Driver core for an HC-SR04 ultrasonic distance sensor.
//!
//! The measurement protocol (trigger pulse, echo window, timeout policy) is
//! modelled as an explicit state machine in [`hcsr04`]; the conversion from
//! pulse width to distance uses an exact fixed-point speed-of-sound model in
//! [`temperature`]; every failure is a value of [`error::Error`].

pub mod error;
pub mod hcsr04;
pub mod temperature;

pub use crate::error::Error;
pub use crate::hcsr04::Hcsr04;
pub use crate::temperature::{NoTemperatureCompensation, TemperatureProvider};
