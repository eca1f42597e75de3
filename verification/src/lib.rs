//! Turns tracked palm positions into a stream of control messages for a
//! synthesizer: one continuous parameter per spatial axis and hand, and
//! note, pitch-bend and aftertouch events from a held-note state machine
//! per hand.
//!
//! Coordinates are fixed-point integers, in thousandths of the sensor's
//! unit; [`axes::Coordinate::from_bits`] reads them from the single-precision
//! samples that the sensor reports. Every function here is pure or changes
//! only the value it is handed: reading the sensor and sending datagrams is
//! the caller's business.

pub mod axes;
pub mod decimal;
pub mod listener;
pub mod message;
pub mod range;
pub mod sample;
pub mod sender;
pub mod wire;
