use lilygo_t3s3_epaper::board::{DEFAULT_FREQUENCY_HZ, TCXO_VOLTAGE};
use lilygo_t3s3_epaper::sx1262::{Bandwidth, CodingRate, Config, SpreadingFactor, TcxoVoltage};

fn config_at(frequency_hz: u32) -> Config {
    let mut c = Config::default();
    c.frequency_hz = frequency_hz;
    c
}

fn config_with(sf: SpreadingFactor, bw: Bandwidth) -> Config {
    let mut c = Config::default();
    c.spreading_factor = sf;
    c.bandwidth = bw;
    c
}

const ALL_SF: [SpreadingFactor; 8] = [
    SpreadingFactor::Sf5,
    SpreadingFactor::Sf6,
    SpreadingFactor::Sf7,
    SpreadingFactor::Sf8,
    SpreadingFactor::Sf9,
    SpreadingFactor::Sf10,
    SpreadingFactor::Sf11,
    SpreadingFactor::Sf12,
];

const ALL_BW: [Bandwidth; 3] = [Bandwidth::Bw125kHz, Bandwidth::Bw250kHz, Bandwidth::Bw500kHz];

const ALL_CR: [CodingRate; 4] = [
    CodingRate::Cr4_5,
    CodingRate::Cr4_6,
    CodingRate::Cr4_7,
    CodingRate::Cr4_8,
];

const ALL_TCXO: [TcxoVoltage; 8] = [
    TcxoVoltage::V1_6,
    TcxoVoltage::V1_7,
    TcxoVoltage::V1_8,
    TcxoVoltage::V2_2,
    TcxoVoltage::V2_4,
    TcxoVoltage::V2_7,
    TcxoVoltage::V3_0,
    TcxoVoltage::V3_3,
];

#[test]
fn spreading_factor_reg_is_the_factor() {
    let regs: Vec<u8> = ALL_SF.iter().map(|sf| sf.reg()).collect();
    assert_eq!(regs, vec![5, 6, 7, 8, 9, 10, 11, 12]);
}

#[test]
fn bandwidth_reg_and_hz() {
    assert_eq!(Bandwidth::Bw125kHz.reg(), 0x04);
    assert_eq!(Bandwidth::Bw250kHz.reg(), 0x05);
    assert_eq!(Bandwidth::Bw500kHz.reg(), 0x06);
    assert_eq!(Bandwidth::Bw125kHz.hz(), 125_000);
    assert_eq!(Bandwidth::Bw250kHz.hz(), 250_000);
    assert_eq!(Bandwidth::Bw500kHz.hz(), 500_000);
}

#[test]
fn coding_rate_reg() {
    let regs: Vec<u8> = ALL_CR.iter().map(|cr| cr.reg()).collect();
    assert_eq!(regs, vec![0x01, 0x02, 0x03, 0x04]);
}

#[test]
fn tcxo_voltage_reg() {
    let regs: Vec<u8> = ALL_TCXO.iter().map(|v| v.reg()).collect();
    assert_eq!(regs, vec![0x00, 0x01, 0x02, 0x03, 0x04, 0x05, 0x06, 0x07]);
}

#[test]
fn register_encodings_are_injective() {
    for a in ALL_SF {
        for b in ALL_SF {
            assert_eq!(a.reg() == b.reg(), a == b);
        }
    }
    for a in ALL_BW {
        for b in ALL_BW {
            assert_eq!(a.reg() == b.reg(), a == b);
            assert_eq!(a.reg() < b.reg(), a.hz() < b.hz());
        }
    }
    for a in ALL_CR {
        for b in ALL_CR {
            assert_eq!(a.reg() == b.reg(), a == b);
        }
    }
    for a in ALL_TCXO {
        for b in ALL_TCXO {
            assert_eq!(a.reg() == b.reg(), a == b);
        }
    }
}

#[test]
fn default_config_matches_board() {
    let c = Config::default();
    assert_eq!(DEFAULT_FREQUENCY_HZ, 915_000_000);
    assert_eq!(TCXO_VOLTAGE, TcxoVoltage::V1_8);
    assert_eq!(c.frequency_hz, 915_000_000);
    assert_eq!(c.spreading_factor, SpreadingFactor::Sf7);
    assert_eq!(c.bandwidth, Bandwidth::Bw125kHz);
    assert_eq!(c.coding_rate, CodingRate::Cr4_5);
    assert_eq!(c.preamble_len, 8);
    assert_eq!(c.tx_power_dbm, 22);
    assert!(c.crc_on);
    assert!(c.explicit_header);
    assert!(!c.invert_iq);
    assert!(c.use_dcdc);
    assert!(c.rx_boost);
    assert_eq!(c.tcxo_voltage, Some(TcxoVoltage::V1_8));
}

#[test]
fn default_config_derived_values() {
    let c = Config::default();
    assert_eq!(c.frequency_pll(), 959_447_040);
    assert_eq!(c.calibrate_image_band(), [0xE1, 0xE9]);
    assert_eq!(c.low_data_rate_optimize(), 0);
}

#[test]
fn frequency_pll_values() {
    assert_eq!(config_at(915_000_000).frequency_pll(), 959_447_040);
    assert_eq!(config_at(868_000_000).frequency_pll(), 910_163_968);
    assert_eq!(config_at(433_000_000).frequency_pll(), 454_033_408);
    assert_eq!(config_at(0).frequency_pll(), 0);
    assert_eq!(config_at(1).frequency_pll(), 1);
}

#[test]
fn frequency_pll_truncates_to_32_bits() {
    assert_eq!(config_at(4_095_999_999).frequency_pll(), 4_294_967_294);
    assert_eq!(config_at(4_096_000_000).frequency_pll(), 0);
    assert_eq!(config_at(u32::MAX).frequency_pll(), 208_632_330);
}

#[test]
fn frequency_pll_resolution_under_one_hz() {
    for f in [433_000_000u32, 470_000_001, 868_100_000, 915_000_000, 927_999_999] {
        let pll = config_at(f).frequency_pll() as u64;
        let scaled = (f as u64) << 25;
        assert!(pll * 32_000_000 <= scaled);
        assert!(scaled < (pll + 1) * 32_000_000);
    }
}

#[test]
fn frequency_pll_monotone() {
    let mut prev = 0u32;
    for f in (0u32..4_000_000_000).step_by(99_999_989) {
        let pll = config_at(f).frequency_pll();
        assert!(prev <= pll);
        prev = pll;
    }
}

#[test]
fn calibrate_image_band_table() {
    assert_eq!(config_at(902_000_000).calibrate_image_band(), [0xE1, 0xE9]);
    assert_eq!(config_at(928_000_000).calibrate_image_band(), [0xE1, 0xE9]);
    assert_eq!(config_at(863_000_000).calibrate_image_band(), [0xD7, 0xDB]);
    assert_eq!(config_at(868_000_000).calibrate_image_band(), [0xD7, 0xDB]);
    assert_eq!(config_at(870_000_000).calibrate_image_band(), [0xD7, 0xDB]);
    assert_eq!(config_at(779_000_000).calibrate_image_band(), [0xC1, 0xC5]);
    assert_eq!(config_at(787_000_000).calibrate_image_band(), [0xC1, 0xC5]);
    assert_eq!(config_at(470_000_000).calibrate_image_band(), [0x75, 0x81]);
    assert_eq!(config_at(510_000_000).calibrate_image_band(), [0x75, 0x81]);
    assert_eq!(config_at(433_000_000).calibrate_image_band(), [0x6B, 0x6F]);
}

#[test]
fn calibrate_image_band_fallback_outside_bands() {
    for f in [0u32, 901_999_999, 928_000_001, 862_999_999, 870_000_001, 778_999_999,
              787_000_001, 469_999_999, 510_000_001, u32::MAX] {
        assert_eq!(config_at(f).calibrate_image_band(), [0x6B, 0x6F]);
    }
}

#[test]
fn calibrate_image_band_brackets_frequency() {
    for f in [902_000_000u32, 915_000_000, 928_000_000, 863_000_000, 870_000_000,
              779_000_000, 787_000_000, 470_000_000, 510_000_000, 430_000_000, 440_000_000] {
        let band = config_at(f).calibrate_image_band();
        assert!(band[0] < band[1]);
        assert!((band[0] as u64) * 4_000_000 <= f as u64);
        assert!(f as u64 <= (band[1] as u64) * 4_000_000);
    }
}

#[test]
fn low_data_rate_optimize_table() {
    for sf in ALL_SF {
        for bw in ALL_BW {
            let expected = (sf == SpreadingFactor::Sf12 && bw != Bandwidth::Bw500kHz)
                || (sf == SpreadingFactor::Sf11 && bw == Bandwidth::Bw125kHz);
            assert_eq!(config_with(sf, bw).low_data_rate_optimize(), u8::from(expected));
        }
    }
}

#[test]
fn low_data_rate_optimize_threshold_edges() {
    // SF11 at 125 kHz: 16.384 ms, just over the 16.38 ms limit.
    assert_eq!(config_with(SpreadingFactor::Sf11, Bandwidth::Bw125kHz).low_data_rate_optimize(), 1);
    // SF10 at 125 kHz: 8.192 ms.
    assert_eq!(config_with(SpreadingFactor::Sf10, Bandwidth::Bw125kHz).low_data_rate_optimize(), 0);
    // SF12 at 500 kHz: 8.192 ms.
    assert_eq!(config_with(SpreadingFactor::Sf12, Bandwidth::Bw500kHz).low_data_rate_optimize(), 0);
    assert_eq!(config_with(SpreadingFactor::Sf12, Bandwidth::Bw250kHz).low_data_rate_optimize(), 1);
}
