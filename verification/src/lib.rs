//! Support library for the LilyGO T3-S3 board: the SX1262 LoRa radio's
//! configuration model and the register encodings derived from it.

pub mod board;
pub mod sx1262;
