//! Properties of the register encodings and of the values derived from a
//! [`Config`]: each is proved over the same spec functions that the
//! executable functions' contracts use.

use vstd::prelude::*;

use vstd::arithmetic::power2::{lemma2_to64, pow2};

use crate::sx1262::params::{
    Bandwidth, CodingRate, Config, SpreadingFactor, TcxoVoltage, XTAL_HZ,
};

verus! {

/// Distinct spreading factors are written to the modem as distinct bytes.
pub proof fn lemma_spreading_factor_reg_injective(a: SpreadingFactor, b: SpreadingFactor)
    requires
        a.reg() == b.reg(),
    ensures
        a == b,
{
}

/// Distinct bandwidths are written to the modem as distinct bytes, and a
/// larger register code always means a wider bandwidth.
pub proof fn lemma_bandwidth_reg_injective_and_ordered(a: Bandwidth, b: Bandwidth)
    ensures
        a.reg() == b.reg() ==> a == b,
        a.reg() < b.reg() <==> a.hz() < b.hz(),
{
}

/// Each step up in the bandwidth's register code doubles the bandwidth,
/// starting from 125 kHz at code 0x04.
pub proof fn lemma_bandwidth_hz_doubles_per_code(b: Bandwidth)
    ensures
        b.reg() >= 4,
        b.hz() == 125_000 * pow2((b.reg() - 4) as nat),
{
    lemma2_to64();
}

/// Distinct coding rates are written to the modem as distinct bytes.
pub proof fn lemma_coding_rate_reg_injective(a: CodingRate, b: CodingRate)
    requires
        a.reg() == b.reg(),
    ensures
        a == b,
{
}

/// Distinct TCXO voltages are written to the modem as distinct bytes.
pub proof fn lemma_tcxo_voltage_reg_injective(a: TcxoVoltage, b: TcxoVoltage)
    requires
        a.reg() == b.reg(),
    ensures
        a == b,
{
}

/// Below 4.096 GHz the PLL value is the largest step count whose frequency
/// (`pll * 32 MHz / 2^25`) does not exceed the requested centre frequency, so
/// the programmed frequency lies less than one step (under 1 Hz) below it.
pub proof fn lemma_frequency_pll_resolution(c: Config)
    requires
        c.frequency_hz < 4_096_000_000,
    ensures
        c.spec_frequency_pll() % 0x1_0000_0000 == c.spec_frequency_pll(),
        c.spec_frequency_pll() * XTAL_HZ <= c.frequency_hz * pow2(25),
        c.frequency_hz * pow2(25) < (c.spec_frequency_pll() + 1) * XTAL_HZ,
        XTAL_HZ < pow2(25),
{
    lemma2_to64();
}

/// Below 4.096 GHz a higher centre frequency never gives a smaller PLL value.
pub proof fn lemma_frequency_pll_monotone(a: Config, b: Config)
    requires
        a.frequency_hz <= b.frequency_hz < 4_096_000_000,
    ensures
        a.spec_frequency_pll() % 0x1_0000_0000 <= b.spec_frequency_pll() % 0x1_0000_0000,
{
    lemma2_to64();
    vstd::arithmetic::div_mod::lemma_div_is_ordered(
        a.frequency_hz * pow2(25),
        b.frequency_hz * pow2(25),
        XTAL_HZ as int,
    );
}

/// The image-calibration bytes are a (lower, upper) pair in 4 MHz steps: the
/// lower is always below the upper, and whenever the frequency lies in one of
/// the datasheet's bands (or in the 430-440 MHz fallback band) the pair
/// brackets it.
pub proof fn lemma_calibrate_image_band_brackets(c: Config)
    ensures
        c.spec_calibrate_image_band().0 < c.spec_calibrate_image_band().1,
        (902_000_000 <= c.frequency_hz <= 928_000_000
            || 863_000_000 <= c.frequency_hz <= 870_000_000
            || 779_000_000 <= c.frequency_hz <= 787_000_000
            || 470_000_000 <= c.frequency_hz <= 510_000_000
            || 430_000_000 <= c.frequency_hz <= 440_000_000) ==> {
            &&& c.spec_calibrate_image_band().0 * 4_000_000 <= c.frequency_hz
            &&& c.frequency_hz <= c.spec_calibrate_image_band().1 * 4_000_000
        },
{
}

/// The image-calibration bytes are exactly the datasheet's entry for the band
/// that holds the frequency: [0xE1, 0xE9] for 902-928 MHz, [0xD7, 0xDB] for
/// 863-870 MHz, [0xC1, 0xC5] for 779-787 MHz, [0x75, 0x81] for 470-510 MHz,
/// and the 430-440 MHz entry [0x6B, 0x6F] for every other frequency.
pub proof fn lemma_calibrate_image_band_table(c: Config)
    ensures
        902_000_000 <= c.frequency_hz <= 928_000_000 ==> c.spec_calibrate_image_band() == (0xE1u8, 0xE9u8),
        863_000_000 <= c.frequency_hz <= 870_000_000 ==> c.spec_calibrate_image_band() == (0xD7u8, 0xDBu8),
        779_000_000 <= c.frequency_hz <= 787_000_000 ==> c.spec_calibrate_image_band() == (0xC1u8, 0xC5u8),
        470_000_000 <= c.frequency_hz <= 510_000_000 ==> c.spec_calibrate_image_band() == (0x75u8, 0x81u8),
        !(902_000_000 <= c.frequency_hz <= 928_000_000)
            && !(863_000_000 <= c.frequency_hz <= 870_000_000)
            && !(779_000_000 <= c.frequency_hz <= 787_000_000)
            && !(470_000_000 <= c.frequency_hz <= 510_000_000)
            ==> c.spec_calibrate_image_band() == (0x6Bu8, 0x6Fu8),
{
}

/// Two configurations whose frequencies fall in the same datasheet band (or
/// both outside every listed band) get the same image-calibration bytes.
pub proof fn lemma_calibrate_image_band_constant_per_band(a: Config, b: Config, lo: u32, hi: u32)
    requires
        (lo == 902_000_000 && hi == 928_000_000)
            || (lo == 863_000_000 && hi == 870_000_000)
            || (lo == 779_000_000 && hi == 787_000_000)
            || (lo == 470_000_000 && hi == 510_000_000)
            || (lo == 430_000_000 && hi == 440_000_000),
        lo <= a.frequency_hz <= hi,
        lo <= b.frequency_hz <= hi,
    ensures
        a.spec_calibrate_image_band() == b.spec_calibrate_image_band(),
{
}

/// Low-data-rate optimization is on exactly for SF12 at 125 or 250 kHz and
/// for SF11 at 125 kHz: the only settings whose symbols last over 16.38 ms.
pub proof fn lemma_low_data_rate_optimize_settings(c: Config)
    ensures
        c.symbol_duration_us() > 16_380 <==> {
            ||| c.spreading_factor == SpreadingFactor::Sf12 && c.bandwidth != Bandwidth::Bw500kHz
            ||| c.spreading_factor == SpreadingFactor::Sf11 && c.bandwidth == Bandwidth::Bw125kHz
        },
{
    lemma2_to64();
    let chips = pow2(c.spreading_factor.reg() as nat);
    match c.spreading_factor {
        SpreadingFactor::Sf5 => assert(chips == 32),
        SpreadingFactor::Sf6 => assert(chips == 64),
        SpreadingFactor::Sf7 => assert(chips == 128),
        SpreadingFactor::Sf8 => assert(chips == 256),
        SpreadingFactor::Sf9 => assert(chips == 512),
        SpreadingFactor::Sf10 => assert(chips == 1024),
        SpreadingFactor::Sf11 => assert(chips == 2048),
        SpreadingFactor::Sf12 => assert(chips == 4096),
    }
    match c.bandwidth {
        Bandwidth::Bw125kHz => assert(c.symbol_duration_us() == chips * 1_000_000 / 125000),
        Bandwidth::Bw250kHz => assert(c.symbol_duration_us() == chips * 1_000_000 / 250000),
        Bandwidth::Bw500kHz => assert(c.symbol_duration_us() == chips * 1_000_000 / 500000),
    }
}

} // verus!
