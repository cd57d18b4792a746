//! Radio configuration types for the SX1262 LoRa modem.

use vstd::prelude::*;

use vstd::arithmetic::power2::pow2;

use crate::board::{DEFAULT_FREQUENCY_HZ, TCXO_VOLTAGE};

verus! {

/// LoRa spreading factor.
#[derive(Debug, Clone, Copy, PartialEq, Eq, Structural)]
pub enum SpreadingFactor {
    Sf5,
    Sf6,
    Sf7,
    Sf8,
    Sf9,
    Sf10,
    Sf11,
    Sf12,
}

impl SpreadingFactor {
    /// The byte written to the modem for this spreading factor: the factor itself.
    pub open spec fn spec_reg(self) -> u8 {
        match self {
            SpreadingFactor::Sf5 => 5,
            SpreadingFactor::Sf6 => 6,
            SpreadingFactor::Sf7 => 7,
            SpreadingFactor::Sf8 => 8,
            SpreadingFactor::Sf9 => 9,
            SpreadingFactor::Sf10 => 10,
            SpreadingFactor::Sf11 => 11,
            SpreadingFactor::Sf12 => 12,
        }
    }

    /// Register encoding of the spreading factor (`SetModulationParams`).
    #[verifier::when_used_as_spec(spec_reg)]
    pub fn reg(self) -> (r: u8)
        ensures
            r == self.spec_reg(),
            5 <= r <= 12,
    {
        match self {
            Self::Sf5 => 5,
            Self::Sf6 => 6,
            Self::Sf7 => 7,
            Self::Sf8 => 8,
            Self::Sf9 => 9,
            Self::Sf10 => 10,
            Self::Sf11 => 11,
            Self::Sf12 => 12,
        }
    }
}

/// LoRa signal bandwidth.
#[derive(Debug, Clone, Copy, PartialEq, Eq, Structural)]
pub enum Bandwidth {
    Bw125kHz,
    Bw250kHz,
    Bw500kHz,
}

impl Bandwidth {
    /// The byte written to the modem for this bandwidth.
    pub open spec fn spec_reg(self) -> u8 {
        match self {
            Bandwidth::Bw125kHz => 0x04,
            Bandwidth::Bw250kHz => 0x05,
            Bandwidth::Bw500kHz => 0x06,
        }
    }

    /// The bandwidth in hertz.
    pub open spec fn spec_hz(self) -> u32 {
        match self {
            Bandwidth::Bw125kHz => 125_000,
            Bandwidth::Bw250kHz => 250_000,
            Bandwidth::Bw500kHz => 500_000,
        }
    }

    /// Register encoding of the bandwidth (`SetModulationParams`).
    #[verifier::when_used_as_spec(spec_reg)]
    pub fn reg(self) -> (r: u8)
        ensures
            r == self.spec_reg(),
            0x04 <= r <= 0x06,
    {
        match self {
            Self::Bw125kHz => 0x04,
            Self::Bw250kHz => 0x05,
            Self::Bw500kHz => 0x06,
        }
    }

    /// The bandwidth in hertz.
    #[verifier::when_used_as_spec(spec_hz)]
    pub fn hz(self) -> (h: u32)
        ensures
            h == self.spec_hz(),
            h > 0,
    {
        match self {
            Self::Bw125kHz => 125_000,
            Self::Bw250kHz => 250_000,
            Self::Bw500kHz => 500_000,
        }
    }
}

/// LoRa forward-error-correction coding rate.
#[derive(Debug, Clone, Copy, PartialEq, Eq, Structural)]
pub enum CodingRate {
    Cr4_5,
    Cr4_6,
    Cr4_7,
    Cr4_8,
}

impl CodingRate {
    /// The byte written to the modem for this coding rate.
    pub open spec fn spec_reg(self) -> u8 {
        match self {
            CodingRate::Cr4_5 => 0x01,
            CodingRate::Cr4_6 => 0x02,
            CodingRate::Cr4_7 => 0x03,
            CodingRate::Cr4_8 => 0x04,
        }
    }

    /// Register encoding of the coding rate (`SetModulationParams`).
    #[verifier::when_used_as_spec(spec_reg)]
    pub fn reg(self) -> (r: u8)
        ensures
            r == self.spec_reg(),
            0x01 <= r <= 0x04,
    {
        match self {
            Self::Cr4_5 => 0x01,
            Self::Cr4_6 => 0x02,
            Self::Cr4_7 => 0x03,
            Self::Cr4_8 => 0x04,
        }
    }
}

/// TCXO control voltage supplied from the radio's DIO3 pin.
#[derive(Debug, Clone, Copy, PartialEq, Eq, Structural)]
pub enum TcxoVoltage {
    V1_6,
    V1_7,
    V1_8,
    V2_2,
    V2_4,
    V2_7,
    V3_0,
    V3_3,
}

impl TcxoVoltage {
    /// The byte written to the modem for this voltage.
    pub open spec fn spec_reg(self) -> u8 {
        match self {
            TcxoVoltage::V1_6 => 0x00,
            TcxoVoltage::V1_7 => 0x01,
            TcxoVoltage::V1_8 => 0x02,
            TcxoVoltage::V2_2 => 0x03,
            TcxoVoltage::V2_4 => 0x04,
            TcxoVoltage::V2_7 => 0x05,
            TcxoVoltage::V3_0 => 0x06,
            TcxoVoltage::V3_3 => 0x07,
        }
    }

    /// Register encoding of the voltage (`SetDio3AsTcxoCtrl`).
    #[verifier::when_used_as_spec(spec_reg)]
    pub fn reg(self) -> (r: u8)
        ensures
            r == self.spec_reg(),
            r <= 0x07,
    {
        match self {
            Self::V1_6 => 0x00,
            Self::V1_7 => 0x01,
            Self::V1_8 => 0x02,
            Self::V2_2 => 0x03,
            Self::V2_4 => 0x04,
            Self::V2_7 => 0x05,
            Self::V3_0 => 0x06,
            Self::V3_3 => 0x07,
        }
    }
}

/// Frequency of the radio's reference crystal, in hertz.
pub const XTAL_HZ: u64 = 32_000_000;

/// Radio configuration applied when the modem is initialised.
#[derive(Debug, Clone, Copy)]
pub struct Config {
    /// Centre frequency in Hz.
    pub frequency_hz: u32,
    pub spreading_factor: SpreadingFactor,
    pub bandwidth: Bandwidth,
    pub coding_rate: CodingRate,
    /// Preamble length in symbols.
    pub preamble_len: u16,
    /// Transmit power in dBm (-9..=22 for the SX1262).
    pub tx_power_dbm: i8,
    /// Append/check a CRC on the payload.
    pub crc_on: bool,
    /// Use a variable-length (explicit) header rather than a fixed-length one.
    pub explicit_header: bool,
    /// Invert I and Q signals.
    pub invert_iq: bool,
    /// Use the internal DC-DC regulator rather than the LDO.
    pub use_dcdc: bool,
    /// Enable the boosted receive gain.
    pub rx_boost: bool,
    /// TCXO supply voltage, or `None` for a board without a TCXO.
    pub tcxo_voltage: Option<TcxoVoltage>,
}

impl Default for Config {
    /// Sensible defaults for the T3-S3 e-paper board: 915 MHz, SF7, 125 kHz,
    /// 4/5, +22 dBm, explicit header with CRC, TCXO at 1.8 V via DIO3.
    fn default() -> (c: Self)
        ensures
            c.frequency_hz == DEFAULT_FREQUENCY_HZ,
            c.spreading_factor == SpreadingFactor::Sf7,
            c.bandwidth == Bandwidth::Bw125kHz,
            c.coding_rate == CodingRate::Cr4_5,
            c.preamble_len == 8,
            c.tx_power_dbm == 22,
            c.crc_on,
            c.explicit_header,
            !c.invert_iq,
            c.use_dcdc,
            c.rx_boost,
            c.tcxo_voltage == Some(TCXO_VOLTAGE),
    {
        Self {
            frequency_hz: DEFAULT_FREQUENCY_HZ,
            spreading_factor: SpreadingFactor::Sf7,
            bandwidth: Bandwidth::Bw125kHz,
            coding_rate: CodingRate::Cr4_5,
            preamble_len: 8,
            tx_power_dbm: 22,
            crc_on: true,
            explicit_header: true,
            invert_iq: false,
            use_dcdc: true,
            rx_boost: true,
            tcxo_voltage: Some(TCXO_VOLTAGE),
        }
    }
}

impl Config {
    /// The exact PLL step count for the centre frequency:
    /// `frequency_hz * 2^25 / 32_000_000`, rounded down.
    pub open spec fn spec_frequency_pll(self) -> int {
        (self.frequency_hz as int * pow2(25)) / (XTAL_HZ as int)
    }

    /// Convert the centre frequency to the 32-bit PLL value expected by
    /// `SetRfFrequency`: `freq * 2^25 / 32_000_000`, truncated to 32 bits.
    /// The truncation only bites above 4.096 GHz, far outside the radio's range.
    pub fn frequency_pll(&self) -> (pll: u32)
        ensures
            pll as int == self.spec_frequency_pll() % 0x1_0000_0000,
            self.frequency_hz < 4_096_000_000 ==> pll as int == self.spec_frequency_pll(),
            self.frequency_hz < 4_096_000_000 ==> {
                &&& pll * 32_000_000 <= self.frequency_hz * 0x200_0000
                &&& self.frequency_hz * 0x200_0000 < (pll + 1) * 32_000_000
            },
    {
        let f: u64 = self.frequency_hz as u64;
        let shifted: u64 = f << 25u64;
        proof {
            assert(f << 25u64 == f * 0x200_0000) by (bit_vector)
                requires
                    f < 0x1_0000_0000,
            ;
            vstd::arithmetic::power2::lemma2_to64();
        }
        let q: u64 = shifted / XTAL_HZ;
        proof {
            assert(q as u32 == q % 0x1_0000_0000) by (bit_vector);
        }
        q as u32
    }

    /// The `CalibrateImage` band bytes (lower, upper) for the configured
    /// frequency, from the datasheet's table; frequencies outside the listed
    /// bands fall back to the 430-440 MHz band.
    pub open spec fn spec_calibrate_image_band(self) -> (u8, u8) {
        let f = self.frequency_hz;
        if 902_000_000 <= f <= 928_000_000 {
            (0xE1, 0xE9)
        } else if 863_000_000 <= f <= 870_000_000 {
            (0xD7, 0xDB)
        } else if 779_000_000 <= f <= 787_000_000 {
            (0xC1, 0xC5)
        } else if 470_000_000 <= f <= 510_000_000 {
            (0x75, 0x81)
        } else {
            (0x6B, 0x6F)
        }
    }

    /// Image-calibration band bytes for the configured frequency (datasheet
    /// `CalibrateImage` table).
    pub fn calibrate_image_band(&self) -> (band: [u8; 2])
        ensures
            band[0] == self.spec_calibrate_image_band().0,
            band[1] == self.spec_calibrate_image_band().1,
            902_000_000 <= self.frequency_hz <= 928_000_000 ==> band[0] == 0xE1 && band[1] == 0xE9,
            863_000_000 <= self.frequency_hz <= 870_000_000 ==> band[0] == 0xD7 && band[1] == 0xDB,
            779_000_000 <= self.frequency_hz <= 787_000_000 ==> band[0] == 0xC1 && band[1] == 0xC5,
            470_000_000 <= self.frequency_hz <= 510_000_000 ==> band[0] == 0x75 && band[1] == 0x81,
            !(902_000_000 <= self.frequency_hz <= 928_000_000)
                && !(863_000_000 <= self.frequency_hz <= 870_000_000)
                && !(779_000_000 <= self.frequency_hz <= 787_000_000)
                && !(470_000_000 <= self.frequency_hz <= 510_000_000)
                ==> band[0] == 0x6B && band[1] == 0x6F,
    {
        let f = self.frequency_hz;
        if 902_000_000 <= f && f <= 928_000_000 {
            [0xE1, 0xE9]
        } else if 863_000_000 <= f && f <= 870_000_000 {
            [0xD7, 0xDB]
        } else if 779_000_000 <= f && f <= 787_000_000 {
            [0xC1, 0xC5]
        } else if 470_000_000 <= f && f <= 510_000_000 {
            [0x75, 0x81]
        } else {
            // default to the 430-440 MHz band
            [0x6B, 0x6F]
        }
    }

    /// Duration of one LoRa symbol in whole microseconds:
    /// `2^SF * 1_000_000 / bandwidth_hz`, rounded down.
    pub open spec fn symbol_duration_us(self) -> int {
        (pow2(self.spreading_factor.reg() as nat) * 1_000_000) as int / (self.bandwidth.hz() as int)
    }

    /// Low-data-rate optimization is required when symbol duration exceeds
    /// 16.38 ms (datasheet 6.1.4): returns 1 then, and 0 otherwise.
    pub fn low_data_rate_optimize(&self) -> (ldro: u8)
        ensures
            ldro == (if self.symbol_duration_us() > 16_380 { 1u8 } else { 0u8 }),
            ldro == 1 <==> {
                ||| self.spreading_factor == SpreadingFactor::Sf12 && self.bandwidth != Bandwidth::Bw500kHz
                ||| self.spreading_factor == SpreadingFactor::Sf11 && self.bandwidth == Bandwidth::Bw125kHz
            },
            ldro == 0 || ldro == 1,
    {
        let sf: u64 = self.spreading_factor.reg() as u64;
        proof {
            vstd::arithmetic::power2::lemma2_to64();
            vstd::arithmetic::power2::lemma_pow2_strictly_increases(sf as nat, 13);
            vstd::bits::lemma_u64_shl_is_mul(1, sf);
            crate::sx1262::properties::lemma_low_data_rate_optimize_settings(*self);
        }
        let chips: u64 = 1u64 << sf;
        let symbol_us: u64 = (chips * 1_000_000) / (self.bandwidth.hz() as u64);
        if symbol_us > 16_380 {
            1
        } else {
            0
        }
    }
}

} // verus!
