//! Physical quantities from raw register contents, and the power limit's
//! wrap-around encoding.

use vstd::prelude::*;
use crate::fields::AdcConfig;

verus! {

proof fn lemma_byte_masks(raw: u8)
    by (bit_vector)
    ensures
        raw & 0x03 < 4,
        raw & 0x3f < 64,
        raw & 0x7f < 128,
        raw < 64 ==> raw & 0x3f == raw,
        (raw as u16) << 4 == (raw as u16) * 16,
{
}

proof fn lemma_two_bytes(high: u8, low: u8)
    by (bit_vector)
    ensures
        ((high as u16) << 4) | ((low as u16) >> 4) == (high as u16) * 16 + (low as u16) / 16,
        ((high as u16) << 8) | (low as u16) == (high as u16) * 256 + (low as u16),
{
}

/// The chip version: the low two bits of the version register.
pub open spec fn spec_chip_version(raw: u8) -> u8 {
    raw & 0x03
}

pub fn chip_version(raw: u8) -> (r: u8)
    ensures
        r == spec_chip_version(raw),
        r < 4,
{
    proof {
        lemma_byte_masks(raw);
    }
    raw & 0x03
}

/// The 12-bit code held by a register pair: the high register's byte shifted
/// left by four bits, with the high nibble of the low register below it.
pub open spec fn spec_composite_code(high: u8, low: u8) -> int {
    high * 16 + low / 16
}

pub fn composite_code(high: u8, low: u8) -> (r: u16)
    ensures
        r == spec_composite_code(high, low),
        r < 4096,
{
    proof {
        lemma_two_bytes(high, low);
    }
    ((high as u16) << 4) | ((low as u16) >> 4)
}

/// The buck converter's output voltage in millivolts: 10 mV per step of its
/// 12-bit code.
pub open spec fn spec_buck_output_millivolts(high: u8, low: u8) -> int {
    spec_composite_code(high, low) * 10
}

pub fn buck_output_millivolts(high: u8, low: u8) -> (r: u16)
    ensures
        r == spec_buck_output_millivolts(high, low),
{
    composite_code(high, low) * 10
}

/// The buck converter's current limit in milliamps: 1 A, plus 50 mA per step
/// of the register's low six bits.
pub open spec fn spec_buck_output_limit_milliamps(raw: u8) -> int {
    1000 + (raw & 0x3f) * 50
}

pub fn buck_output_limit_milliamps(raw: u8) -> (r: u16)
    ensures
        r == spec_buck_output_limit_milliamps(raw),
{
    proof {
        lemma_byte_masks(raw);
    }
    1000 + ((raw & 0x3f) as u16) * 50
}

/// The input voltage in millivolts from the input-voltage ADC register, whose
/// byte is the top eight bits of a 12-bit code: 10 mV per step of the code.
pub open spec fn spec_adc_input_millivolts(raw: u8) -> int {
    raw * 16 * 10
}

pub fn adc_input_millivolts(raw: u8) -> (r: u16)
    ensures
        r == spec_adc_input_millivolts(raw),
{
    proof {
        lemma_byte_masks(raw);
    }
    ((raw as u16) << 4) * 10
}

/// The output voltage in millivolts from the output-voltage ADC register:
/// 6 mV per step of the 12-bit code whose top eight bits it holds.
pub open spec fn spec_adc_output_millivolts(raw: u8) -> int {
    raw * 16 * 6
}

pub fn adc_output_millivolts(raw: u8) -> (r: u16)
    ensures
        r == spec_adc_output_millivolts(raw),
{
    proof {
        lemma_byte_masks(raw);
    }
    ((raw as u16) << 4) * 6
}

/// The output current in milliamps from the output-current ADC register:
/// 2.5 mA per step of the 12-bit code whose top eight bits it holds. The code
/// is a multiple of 16, so the product is a whole number.
pub open spec fn spec_adc_output_milliamps(raw: u8) -> int {
    raw * 16 * 5 / 2
}

pub fn adc_output_milliamps(raw: u8) -> (r: u16)
    ensures
        r == spec_adc_output_milliamps(raw),
{
    proof {
        lemma_byte_masks(raw);
    }
    ((raw as u16) << 4) / 2 * 5
}

/// What one step of an ADC code is worth on a channel, in tenths of a
/// millivolt (voltages) or of a milliamp (current): 10 mV, 6 mV, 2.5 mA.
pub open spec fn tenths_per_step(channel: AdcConfig) -> int {
    match channel {
        AdcConfig::Vin => 100,
        AdcConfig::Vout => 60,
        AdcConfig::Iout => 25,
    }
}

/// An ADC code on a channel as a calibrated value, in tenths of a millivolt
/// or of a milliamp.
pub open spec fn spec_adc_calibrated_tenths(channel: AdcConfig, code: int) -> int {
    code * tenths_per_step(channel)
}

pub fn adc_calibrated_tenths(channel: AdcConfig, code: u16) -> (r: u32)
    requires
        code < 4096,
    ensures
        r == spec_adc_calibrated_tenths(channel, code as int),
{
    let code = code as u32;
    match channel {
        AdcConfig::Vin => code * 100,
        AdcConfig::Vout => code * 60,
        AdcConfig::Iout => code * 25,
    }
}

/// The power limit in watts that the power status register reports: its low
/// seven bits.
pub open spec fn spec_limit_watts(raw: u8) -> u8 {
    raw & 0x7f
}

pub fn limit_watts(raw: u8) -> (r: u8)
    ensures
        r == spec_limit_watts(raw),
        r < 128,
{
    proof {
        lemma_byte_masks(raw);
    }
    raw & 0x7f
}

/// The output power limit in watts held by the power configuration register.
/// Its low six bits wrap around: 0 to 7 stand for 64 to 71 watts, 8 to 63
/// for themselves.
pub open spec fn spec_output_limit_watts(raw: u8) -> u8 {
    let field = raw & 0x3f;
    if field < 8 {
        (field + 64) as u8
    } else {
        field
    }
}

pub fn output_limit_watts(raw: u8) -> (r: u8)
    ensures
        r == spec_output_limit_watts(raw),
        8 <= r <= 71,
{
    proof {
        lemma_byte_masks(raw);
    }
    let field = raw & 0x3f;
    if field < 8 {
        field + 64
    } else {
        field
    }
}

/// The register value for an output power limit of 8 to 71 watts: the
/// inverse of the wrap-around above.
pub open spec fn spec_output_limit_raw(watts: u8) -> u8 {
    if watts >= 64 {
        (watts - 64) as u8
    } else {
        watts
    }
}

pub fn output_limit_raw(watts: u8) -> (r: u8)
    requires
        8 <= watts <= 71,
    ensures
        r == spec_output_limit_raw(watts),
        r < 64,
{
    if watts >= 64 {
        watts - 64
    } else {
        watts
    }
}

/// Writing a power limit of 8 to 71 watts and reading the register back
/// gives the same number of watts.
pub proof fn lemma_output_limit_round_trip(watts: u8)
    requires
        8 <= watts <= 71,
    ensures
        spec_output_limit_watts(spec_output_limit_raw(watts)) == watts,
{
    lemma_byte_masks(spec_output_limit_raw(watts));
}

/// Each six-bit register value reads as a number of watts that is written
/// back as the same value; in particular 0 to 7 read as 64 to 71 watts.
pub proof fn lemma_output_limit_raw_round_trip(raw: u8)
    requires
        raw < 64,
    ensures
        spec_output_limit_raw(spec_output_limit_watts(raw)) == raw,
        raw < 8 ==> spec_output_limit_watts(raw) == raw + 64,
{
    lemma_byte_masks(raw);
}

/// The USB vendor id held by its two registers: the high register's byte
/// above the low register's.
pub open spec fn spec_vid(low: u8, high: u8) -> int {
    high * 256 + low
}

pub fn vid(low: u8, high: u8) -> (r: u16)
    ensures
        r == spec_vid(low, high),
{
    proof {
        lemma_two_bytes(high, low);
    }
    ((high as u16) << 8) | (low as u16)
}

/// Splitting a vendor id into the low and high bytes that `set_vid` writes,
/// then joining them as `get_vid` does, gives the id back.
pub proof fn lemma_vid_round_trip(id: u16)
    ensures
        spec_vid((id % 256) as u8, (id / 256) as u8) == id,
{
}

} // verus!
