//! Full-scale ranges and output data rates, their register codes, and the
//! resolution that each range gives to a raw count.

use vstd::prelude::*;
use vstd::arithmetic::power2::{
    lemma2_to64, lemma_pow2_adds, lemma_pow2_pos, lemma_pow2_strictly_increases, pow2,
};
use crate::rational::{Rational, Resolution};

verus! {

/// Full-scale range of the accelerometer, from the narrowest to the
/// widest.
#[derive(Clone, Copy, Debug, PartialEq, Eq, Structural)]
pub enum AccelScale {
    Fs2g,
    Fs4g,
    Fs8g,
    Fs16g,
}

/// Full-scale range of the gyroscope, from the narrowest to the widest.
#[derive(Clone, Copy, Debug, PartialEq, Eq, Structural)]
pub enum GyroScale {
    Fs15_6dps,
    Fs31_2dps,
    Fs62_4dps,
    Fs125dps,
    Fs250dps,
    Fs500dps,
    Fs1000dps,
    Fs2000dps,
}

/// Output data rate, in rate-select order.
#[derive(Clone, Copy, Debug, PartialEq, Eq, Structural)]
pub enum SamplingRate {
    Odr32k,
    Odr16k,
    Odr8k,
    Odr4k,
    Odr2k,
    Odr1k,
    Odr200,
    Odr100,
    Odr50,
    Odr25,
    Odr12_5,
    Odr6_25,
    Odr3_125,
    Odr1_5625,
    Odr500,
}

/// Resolution of the accelerometer at range-select `code`:
/// `2^(3 - code) / 32768` units per count.
pub open spec fn accel_resolution(code: int) -> Rational {
    Rational { num: pow2((3 - code) as nat) as int, den: 32768 }
}

/// Resolution of the gyroscope at range-select `code`:
/// `(2000 / 2^code) / 32768` degrees per second per count.
pub open spec fn gyro_resolution(code: int) -> Rational {
    Rational { num: 2000, den: 32768 * (pow2(code as nat) as int) }
}

impl AccelScale {
    /// The largest acceleration that the range measures, in g.
    pub open spec fn full_scale(self) -> int {
        match self {
            AccelScale::Fs2g => 2,
            AccelScale::Fs4g => 4,
            AccelScale::Fs8g => 8,
            AccelScale::Fs16g => 16,
        }
    }

    /// The range-select code: 0 for the widest range, and one more for
    /// each halving of it.
    pub open spec fn code(self) -> u8 {
        match self {
            AccelScale::Fs2g => 3,
            AccelScale::Fs4g => 2,
            AccelScale::Fs8g => 1,
            AccelScale::Fs16g => 0,
        }
    }

    /// The range-select code that the configuration register takes.
    pub fn range_select(&self) -> (code: u8)
        ensures
            code == self.code(),
            code <= 3,
    {
        match self {
            AccelScale::Fs2g => 3,
            AccelScale::Fs4g => 2,
            AccelScale::Fs8g => 1,
            AccelScale::Fs16g => 0,
        }
    }

    /// The range that a range-select code stands for; the accelerometer
    /// uses the codes 0 to 3.
    pub open spec fn decode(code: u8) -> Option<AccelScale> {
        match code {
            0 => Some(AccelScale::Fs16g),
            1 => Some(AccelScale::Fs8g),
            2 => Some(AccelScale::Fs4g),
            3 => Some(AccelScale::Fs2g),
            _ => None,
        }
    }

    /// Reads a range-select code back into its range.
    pub fn from_range_select(code: u8) -> (scale: Option<AccelScale>)
        ensures
            scale == AccelScale::decode(code),
            scale is Some <==> code <= 3,
            scale matches Some(range) ==> range.code() == code,
    {
        match code {
            0 => Some(AccelScale::Fs16g),
            1 => Some(AccelScale::Fs8g),
            2 => Some(AccelScale::Fs4g),
            3 => Some(AccelScale::Fs2g),
            _ => None,
        }
    }

    /// Units per count while this range is selected.
    pub fn resolution(&self) -> (r: Resolution)
        ensures
            r@ == accel_resolution(self.code() as int),
            r@.valid(),
    {
        let code: u8 = self.range_select();
        let shift: u32 = 3 - code as u32;
        proof {
            lemma2_to64();
            assert(1u32 << 0u32 == 1u32 && 1u32 << 1u32 == 2u32 && 1u32 << 2u32 == 4u32 && 1u32
                << 3u32 == 8u32) by (bit_vector);
        }
        Resolution { num: 1u32 << shift, den: 32768 }
    }
}

impl GyroScale {
    /// The largest angular rate that the range measures, in thousandths
    /// of a degree per second.
    pub open spec fn full_scale(self) -> int {
        match self {
            GyroScale::Fs15_6dps => 15_625,
            GyroScale::Fs31_2dps => 31_250,
            GyroScale::Fs62_4dps => 62_500,
            GyroScale::Fs125dps => 125_000,
            GyroScale::Fs250dps => 250_000,
            GyroScale::Fs500dps => 500_000,
            GyroScale::Fs1000dps => 1_000_000,
            GyroScale::Fs2000dps => 2_000_000,
        }
    }

    /// The range-select code: 0 for the widest range, and one more for
    /// each halving of it.
    pub open spec fn code(self) -> u8 {
        match self {
            GyroScale::Fs15_6dps => 7,
            GyroScale::Fs31_2dps => 6,
            GyroScale::Fs62_4dps => 5,
            GyroScale::Fs125dps => 4,
            GyroScale::Fs250dps => 3,
            GyroScale::Fs500dps => 2,
            GyroScale::Fs1000dps => 1,
            GyroScale::Fs2000dps => 0,
        }
    }

    /// The range-select code that the configuration register takes.
    pub fn range_select(&self) -> (code: u8)
        ensures
            code == self.code(),
            code <= 7,
    {
        match self {
            GyroScale::Fs15_6dps => 7,
            GyroScale::Fs31_2dps => 6,
            GyroScale::Fs62_4dps => 5,
            GyroScale::Fs125dps => 4,
            GyroScale::Fs250dps => 3,
            GyroScale::Fs500dps => 2,
            GyroScale::Fs1000dps => 1,
            GyroScale::Fs2000dps => 0,
        }
    }

    /// The range that a range-select code stands for; the gyroscope uses
    /// all eight codes of the field.
    pub open spec fn decode(code: u8) -> Option<GyroScale> {
        match code {
            0 => Some(GyroScale::Fs2000dps),
            1 => Some(GyroScale::Fs1000dps),
            2 => Some(GyroScale::Fs500dps),
            3 => Some(GyroScale::Fs250dps),
            4 => Some(GyroScale::Fs125dps),
            5 => Some(GyroScale::Fs62_4dps),
            6 => Some(GyroScale::Fs31_2dps),
            7 => Some(GyroScale::Fs15_6dps),
            _ => None,
        }
    }

    /// Reads a range-select code back into its range.
    pub fn from_range_select(code: u8) -> (scale: Option<GyroScale>)
        ensures
            scale == GyroScale::decode(code),
            scale is Some <==> code <= 7,
            scale matches Some(range) ==> range.code() == code,
    {
        match code {
            0 => Some(GyroScale::Fs2000dps),
            1 => Some(GyroScale::Fs1000dps),
            2 => Some(GyroScale::Fs500dps),
            3 => Some(GyroScale::Fs250dps),
            4 => Some(GyroScale::Fs125dps),
            5 => Some(GyroScale::Fs62_4dps),
            6 => Some(GyroScale::Fs31_2dps),
            7 => Some(GyroScale::Fs15_6dps),
            _ => None,
        }
    }

    /// Degrees per second per count while this range is selected.
    pub fn resolution(&self) -> (r: Resolution)
        ensures
            r@ == gyro_resolution(self.code() as int),
            r@.valid(),
    {
        let code: u8 = self.range_select();
        let shift: u32 = code as u32;
        proof {
            lemma2_to64();
            assert(32768u32 << 0u32 == 32768u32 && 32768u32 << 1u32 == 65536u32 && 32768u32
                << 2u32 == 131072u32 && 32768u32 << 3u32 == 262144u32) by (bit_vector);
            assert(32768u32 << 4u32 == 524288u32 && 32768u32 << 5u32 == 1048576u32 && 32768u32
                << 6u32 == 2097152u32 && 32768u32 << 7u32 == 4194304u32) by (bit_vector);
        }
        Resolution { num: 2000, den: 32768u32 << shift }
    }
}

impl SamplingRate {
    /// The position of the rate in the enumeration, 0 to 14.
    pub open spec fn code(self) -> u8 {
        match self {
            SamplingRate::Odr32k => 0,
            SamplingRate::Odr16k => 1,
            SamplingRate::Odr8k => 2,
            SamplingRate::Odr4k => 3,
            SamplingRate::Odr2k => 4,
            SamplingRate::Odr1k => 5,
            SamplingRate::Odr200 => 6,
            SamplingRate::Odr100 => 7,
            SamplingRate::Odr50 => 8,
            SamplingRate::Odr25 => 9,
            SamplingRate::Odr12_5 => 10,
            SamplingRate::Odr6_25 => 11,
            SamplingRate::Odr3_125 => 12,
            SamplingRate::Odr1_5625 => 13,
            SamplingRate::Odr500 => 14,
        }
    }

    /// The rates under 12.5 Hz, which the gyroscope cannot run at.
    pub open spec fn below_gyro_minimum(self) -> bool {
        SamplingRate::Odr6_25.code() <= self.code() <= SamplingRate::Odr1_5625.code()
    }

    /// The rate-select code: one more than the position, since the
    /// register reserves zero.
    pub open spec fn select(self) -> u8 {
        (self.code() + 1) as u8
    }

    /// The rate-select code that the configuration register takes.
    pub fn rate_select(&self) -> (code: u8)
        ensures
            code == self.select(),
            code == self.code() + 1,
            1 <= code <= 15,
    {
        match self {
            SamplingRate::Odr32k => 1,
            SamplingRate::Odr16k => 2,
            SamplingRate::Odr8k => 3,
            SamplingRate::Odr4k => 4,
            SamplingRate::Odr2k => 5,
            SamplingRate::Odr1k => 6,
            SamplingRate::Odr200 => 7,
            SamplingRate::Odr100 => 8,
            SamplingRate::Odr50 => 9,
            SamplingRate::Odr25 => 10,
            SamplingRate::Odr12_5 => 11,
            SamplingRate::Odr6_25 => 12,
            SamplingRate::Odr3_125 => 13,
            SamplingRate::Odr1_5625 => 14,
            SamplingRate::Odr500 => 15,
        }
    }

    /// Whether the gyroscope accepts this rate.
    pub fn gyro_supports(&self) -> (ok: bool)
        ensures
            ok == !self.below_gyro_minimum(),
    {
        match self {
            SamplingRate::Odr6_25 | SamplingRate::Odr3_125 | SamplingRate::Odr1_5625 => false,
            _ => true,
        }
    }
}

/// Each step of the accelerometer's range-select code halves the
/// resolution: a higher code always gives strictly fewer units per count.
pub proof fn lemma_accel_resolution_decreases(low: int, high: int)
    requires
        0 <= low < high <= 3,
    ensures
        accel_resolution(high).below(accel_resolution(low)),
        accel_resolution(high).times(pow2((high - low) as nat) as int).same(accel_resolution(low)),
{
    let step = pow2((high - low) as nat) as int;
    let fine = pow2((3 - high) as nat) as int;
    let coarse = pow2((3 - low) as nat) as int;
    assert(coarse == fine * step) by {
        lemma_pow2_adds((3 - high) as nat, (high - low) as nat);
    }
    assert(fine < coarse) by {
        lemma_pow2_strictly_increases((3 - high) as nat, (3 - low) as nat);
    }
    assert((fine * step) * 32768 == coarse * 32768);
}

/// Each step of the gyroscope's range-select code halves the resolution:
/// a higher code always gives strictly fewer degrees per second per count.
pub proof fn lemma_gyro_resolution_decreases(low: int, high: int)
    requires
        0 <= low < high <= 7,
    ensures
        gyro_resolution(high).below(gyro_resolution(low)),
        gyro_resolution(high).times(pow2((high - low) as nat) as int).same(gyro_resolution(low)),
{
    let step = pow2((high - low) as nat) as int;
    let fine = pow2(high as nat) as int;
    let coarse = pow2(low as nat) as int;
    assert(fine == coarse * step) by {
        lemma_pow2_adds(low as nat, (high - low) as nat);
    }
    assert(coarse < fine) by {
        lemma_pow2_strictly_increases(low as nat, high as nat);
    }
    assert(coarse > 0) by {
        lemma_pow2_pos(low as nat);
    }
    assert(2000 * (32768 * coarse) < 2000 * (32768 * fine));
    assert((2000 * step) * (32768 * coarse) == 2000 * (32768 * (coarse * step)))
        by (nonlinear_arith);
}

/// A narrower range of the accelerometer has the higher range-select code
/// and the strictly finer resolution.
pub proof fn lemma_narrower_accel_range_is_finer(narrow: AccelScale, wide: AccelScale)
    requires
        narrow.full_scale() < wide.full_scale(),
    ensures
        narrow.code() > wide.code(),
        accel_resolution(narrow.code() as int).below(accel_resolution(wide.code() as int)),
{
    lemma_accel_resolution_decreases(wide.code() as int, narrow.code() as int);
}

/// A narrower range of the gyroscope has the higher range-select code and
/// the strictly finer resolution, and each resolution is the range's full
/// scale spread over 32768 counts.
pub proof fn lemma_narrower_gyro_range_is_finer(narrow: GyroScale, wide: GyroScale)
    requires
        narrow.full_scale() < wide.full_scale(),
    ensures
        narrow.code() > wide.code(),
        gyro_resolution(narrow.code() as int).below(gyro_resolution(wide.code() as int)),
        gyro_resolution(wide.code() as int).same(
            Rational { num: wide.full_scale(), den: 32_768_000 },
        ),
{
    lemma_gyro_resolution_decreases(wide.code() as int, narrow.code() as int);
    lemma2_to64();
    let steps = pow2(wide.code() as nat) as int;
    assert(wide.full_scale() * steps == 2_000_000);
    assert(2000 * 32_768_000 == wide.full_scale() * (32768 * steps)) by (nonlinear_arith)
        requires
            wide.full_scale() * steps == 2_000_000,
    ;
}

/// A range-select code decodes to the range that it was computed from.
pub proof fn lemma_range_select_round_trip(accel: AccelScale, gyro: GyroScale)
    ensures
        AccelScale::decode(accel.code()) == Some(accel),
        GyroScale::decode(gyro.code()) == Some(gyro),
{
}

} // verus!
