//! The sensor's register map and the bit fields of its two configuration
//! registers.

use vstd::prelude::*;

verus! {

/// Soft-reset trigger.
pub const DEVICE_CONFIG: u8 = 0x11;

/// Interrupt polarity and drive mode.
pub const INT_CONFIG: u8 = 0x14;

/// First register of the burst: temperature, then acceleration, then
/// angular rate.
pub const TEMP_DATA1: u8 = 0x1D;

/// Sensor enable and power mode.
pub const PWR_MGMT0: u8 = 0x4E;

/// Gyroscope range (bits 7:5) and rate (bits 3:0).
pub const GYRO_CONFIG0: u8 = 0x4F;

/// Accelerometer range (bits 7:5) and rate (bits 3:0).
pub const ACCEL_CONFIG0: u8 = 0x50;

/// Routing of interrupt sources to the first interrupt pin.
pub const INT_SOURCE0: u8 = 0x65;

/// Identity register.
pub const WHO_AM_I: u8 = 0x75;

/// Register bank selector.
pub const BANK_SEL: u8 = 0x76;

/// The value that the identity register of this sensor holds.
pub const DEVICE_ID: u8 = 0x47;

/// Written to `DEVICE_CONFIG` to reset the sensor.
pub const SOFT_RESET: u8 = 0x01;

/// Written to `BANK_SEL` to select bank 0.
pub const BANK_0: u8 = 0x00;

/// Written to `PWR_MGMT0`: accelerometer and gyroscope on, low-noise mode.
pub const SENSORS_ON: u8 = 0x0F;

/// Written to `INT_CONFIG`: both pins active high, push-pull, pulsed.
pub const INT_PULSED_PUSH_PULL: u8 = 0x1B;

/// The bit of `INT_CONFIG` that must be clear for the pins to work.
pub const INT_ASYNC_RESET: u8 = 0x10;

/// Written to `INT_SOURCE0`: reset-done and data-ready on the first pin.
pub const INT_RESET_DONE_AND_DATA_READY: u8 = 0x18;

/// Milliseconds that the sensor needs after a soft reset.
pub const RESET_SETTLE_MILLIS: u64 = 1;

/// Bytes in one burst of sample data.
pub const BURST_LEN: u8 = 14;

/// The interrupt configuration byte with its asynchronous-reset bit
/// cleared and every other bit kept.
pub open spec fn spec_clear_async_reset(config: u8) -> u8 {
    config & 0xEF
}

/// Clears bit 4 of the interrupt configuration byte.
#[verifier::when_used_as_spec(spec_clear_async_reset)]
pub fn clear_async_reset(config: u8) -> (cleared: u8)
    ensures
        cleared == spec_clear_async_reset(config),
        cleared == config - 16 * ((config / 16) % 2),
        cleared & INT_ASYNC_RESET == 0,
        cleared | (config & INT_ASYNC_RESET) == config,
{
    let cleared: u8 = config & 0xEF;
    assert(cleared == config - 16 * ((config / 16) % 2) && cleared & 0x10 == 0 && cleared | (config
        & 0x10) == config) by (bit_vector)
        requires
            cleared == config & 0xEF,
    ;
    cleared
}

/// One configuration register: a range-select field in bits 7:5, a
/// reserved bit 4 and a rate-select field in bits 3:0.
#[derive(Clone, Copy, Debug, PartialEq, Eq, Structural)]
pub struct ConfigRegister {
    pub bits: u8,
}

impl ConfigRegister {
    /// The range-select field.
    pub open spec fn spec_range(self) -> u8 {
        self.bits >> 5
    }

    /// The rate-select field.
    pub open spec fn spec_rate(self) -> u8 {
        self.bits & 0x0F
    }

    /// The register with its range-select field replaced by `code`.
    pub open spec fn spec_with_range(self, code: u8) -> ConfigRegister {
        ConfigRegister { bits: (code << 5) | (self.bits & 0x1F) }
    }

    /// The register with its rate-select field replaced by `code`.
    pub open spec fn spec_with_rate(self, code: u8) -> ConfigRegister {
        ConfigRegister { bits: code | (self.bits & 0xF0) }
    }

    /// The range-select field: the byte divided by 32.
    #[verifier::when_used_as_spec(spec_range)]
    pub fn range(self) -> (code: u8)
        ensures
            code == self.spec_range(),
            code == self.bits / 32,
            code <= 7,
    {
        let bits: u8 = self.bits;
        assert(bits >> 5 == bits / 32 && bits >> 5 <= 7) by (bit_vector);
        bits >> 5
    }

    /// The rate-select field: the byte modulo 16.
    #[verifier::when_used_as_spec(spec_rate)]
    pub fn rate(self) -> (code: u8)
        ensures
            code == self.spec_rate(),
            code == self.bits % 16,
            code <= 15,
    {
        let bits: u8 = self.bits;
        assert(bits & 0x0F == bits % 16 && bits & 0x0F <= 15) by (bit_vector);
        bits & 0x0F
    }

    /// Replaces the three range-select bits by `code` and keeps the five
    /// bits under them.
    #[verifier::when_used_as_spec(spec_with_range)]
    pub fn with_range(self, code: u8) -> (merged: ConfigRegister)
        requires
            code <= 7,
        ensures
            merged == self.spec_with_range(code),
            merged.bits == code * 32 + self.bits % 32,
            merged.range() == code,
            merged.rate() == self.rate(),
    {
        let bits: u8 = self.bits;
        assert(((code << 5) | (bits & 0x1F)) == code * 32 + bits % 32) by (bit_vector)
            requires
                code <= 7,
        ;
        assert(((code << 5) | (bits & 0x1F)) >> 5 == code) by (bit_vector)
            requires
                code <= 7,
        ;
        assert(((code << 5) | (bits & 0x1F)) & 0x0F == bits & 0x0F) by (bit_vector);
        ConfigRegister { bits: (code << 5) | (bits & 0x1F) }
    }

    /// Replaces the four rate-select bits by `code` and keeps the four
    /// bits above them.
    #[verifier::when_used_as_spec(spec_with_rate)]
    pub fn with_rate(self, code: u8) -> (merged: ConfigRegister)
        requires
            code <= 15,
        ensures
            merged == self.spec_with_rate(code),
            merged.bits == (self.bits / 16) * 16 + code,
            merged.rate() == code,
            merged.range() == self.range(),
    {
        let bits: u8 = self.bits;
        assert((code | (bits & 0xF0)) == (bits / 16) * 16 + code) by (bit_vector)
            requires
                code <= 15,
        ;
        assert((code | (bits & 0xF0)) & 0x0F == code) by (bit_vector)
            requires
                code <= 15,
        ;
        assert((code | (bits & 0xF0)) >> 5 == bits >> 5) by (bit_vector)
            requires
                code <= 15,
        ;
        ConfigRegister { bits: code | (bits & 0xF0) }
    }
}

/// The two merges do not disturb each other: a range merge keeps the rate
/// field and the reserved bit, a rate merge keeps the range field and the
/// reserved bit, and the two may be made in either order.
pub proof fn lemma_merges_independent(register: ConfigRegister, range: u8, rate: u8)
    requires
        range <= 7,
        rate <= 15,
    ensures
        register.with_range(range).rate() == register.rate(),
        register.with_range(range).bits & 0x1F == register.bits & 0x1F,
        register.with_rate(rate).range() == register.range(),
        register.with_rate(rate).bits & 0xF0 == register.bits & 0xF0,
        register.with_range(range).with_rate(rate) == register.with_rate(rate).with_range(range),
        register.with_range(range).with_rate(rate).range() == range,
        register.with_range(range).with_rate(rate).rate() == rate,
{
    let bits: u8 = register.bits;
    assert(((range << 5) | (bits & 0x1F)) & 0x0F == bits & 0x0F) by (bit_vector);
    assert(((range << 5) | (bits & 0x1F)) & 0x1F == bits & 0x1F) by (bit_vector);
    assert((rate | (bits & 0xF0)) >> 5 == bits >> 5) by (bit_vector)
        requires
            rate <= 15,
    ;
    assert((rate | (bits & 0xF0)) & 0xF0 == bits & 0xF0) by (bit_vector)
        requires
            rate <= 15,
    ;
    assert((rate | (((range << 5) | (bits & 0x1F)) & 0xF0)) == ((range << 5) | ((rate | (bits
        & 0xF0)) & 0x1F))) by (bit_vector)
        requires
            rate <= 15,
    ;
    assert((rate | (((range << 5) | (bits & 0x1F)) & 0xF0)) >> 5 == range) by (bit_vector)
        requires
            range <= 7,
            rate <= 15,
    ;
    assert((rate | (((range << 5) | (bits & 0x1F)) & 0xF0)) & 0x0F == rate) by (bit_vector)
        requires
            rate <= 15,
    ;
}

/// The merges as arithmetic: the range-select field counts in steps of
/// 32 and the rate-select field in steps of one.
pub proof fn lemma_merge_arithmetic(register: ConfigRegister, range: u8, rate: u8)
    requires
        range <= 7,
        rate <= 15,
    ensures
        register.with_range(range).bits == range * 32 + register.bits % 32,
        register.with_rate(rate).bits == (register.bits / 16) * 16 + rate,
        register.range() == register.bits / 32,
        register.rate() == register.bits % 16,
{
    let bits: u8 = register.bits;
    assert(((range << 5) | (bits & 0x1F)) == range * 32 + bits % 32) by (bit_vector)
        requires
            range <= 7,
    ;
    assert((rate | (bits & 0xF0)) == (bits / 16) * 16 + rate) by (bit_vector)
        requires
            rate <= 15,
    ;
    assert(bits >> 5 == bits / 32 && bits & 0x0F == bits % 16) by (bit_vector);
}

/// A field reads back as it was written, and a later write of the same
/// field replaces an earlier one.
pub proof fn lemma_field_round_trip(register: ConfigRegister, first: u8, second: u8)
    requires
        first <= 15,
        second <= 15,
    ensures
        register.with_rate(second).rate() == second,
        register.with_rate(first).with_rate(second) == register.with_rate(second),
        second <= 7 ==> register.with_range(second).range() == second,
        first <= 7 && second <= 7 ==> register.with_range(first).with_range(second)
            == register.with_range(second),
{
    let bits: u8 = register.bits;
    assert((second | (bits & 0xF0)) & 0x0F == second) by (bit_vector)
        requires
            second <= 15,
    ;
    assert((second | ((first | (bits & 0xF0)) & 0xF0)) == (second | (bits & 0xF0)))
        by (bit_vector)
        requires
            first <= 15,
    ;
    if second <= 7 {
        assert(((second << 5) | (bits & 0x1F)) >> 5 == second) by (bit_vector)
            requires
                second <= 7,
        ;
        assert(((second << 5) | (((first << 5) | (bits & 0x1F)) & 0x1F)) == ((second << 5) | (bits
            & 0x1F))) by (bit_vector);
    }
}

} // verus!
