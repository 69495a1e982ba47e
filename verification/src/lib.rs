//! Protocol core of a driver for the TSL256x family of light-to-digital
//! converters.
//!
//! The crate never touches a bus. Every operation of the sensor is described
//! as a value: the bytes to put on the wire and the peer to address. The
//! caller performs that transfer on whatever bus it owns and hands the outcome
//! back to be decoded.
//!
//! Only raw counts are read. Turning them into lux, interrupt thresholds and
//! manually timed integration are not covered.

pub mod command;
pub mod config;
pub mod device;
pub mod register;
pub mod transfer;
pub mod word;

pub use crate::command::Command;
pub use crate::config::{timing_byte, Gain, IntegrationTime, SlaveAddr};
pub use crate::device::Tsl2561;
pub use crate::register::Register;
pub use crate::transfer::{Write, WriteRead};
pub use crate::word::{decode_word, encode_word};
