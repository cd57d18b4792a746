//! Board-level constants of the T3-S3 e-paper board.

use vstd::prelude::*;

use crate::sx1262::params::TcxoVoltage;

verus! {

/// Default LoRa centre frequency of the board: 915 MHz.
pub const DEFAULT_FREQUENCY_HZ: u32 = 915_000_000;

/// The board's TCXO is supplied with 1.8 V from the radio's DIO3 pin.
pub const TCXO_VOLTAGE: TcxoVoltage = TcxoVoltage::V1_8;

} // verus!
