//! Driver-side definitions for the Semtech SX1262 LoRa modem.

#[allow(dead_code)]
pub(crate) mod command;
pub mod params;
pub mod properties;

pub use params::{Bandwidth, CodingRate, Config, SpreadingFactor, TcxoVoltage};
