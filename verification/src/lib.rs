//! Core of an LED compass: a calibration model for a triaxial magnetometer,
//! the transform that applies it to a raw reading, the derivation of a
//! calibration from sampled extremes, a heading quantizer that turns an angle
//! into one of eight compass directions, the fixed glyph table that renders a
//! direction on a 5x5 LED grid, and the framing of a serial command line.
//!
//! Everything here is pure integer logic; the board drivers, the serial port
//! and the floating-point `atan2` that produces the heading angle live outside
//! this crate and hand plain values in and out.

pub mod calibration;
pub mod led;
pub mod serial;
pub mod heading;

pub use calibration::Calibration;
pub use calibration::Measurement;
pub use calibration::calc_calibration;
pub use calibration::calibrated_measurement;
pub use calibration::try_calibrated_measurement;
pub use heading::Direction;
pub use led::direction_to_led;
pub use serial::Command;
pub use serial::LineAccumulator;
pub use serial::parse_command;
pub use heading::dir_from_theta;
