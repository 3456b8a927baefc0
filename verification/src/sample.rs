//! Conversion of one burst of raw register bytes into physical values.

use vstd::prelude::*;
use crate::rational::{Quantity, Rational, Resolution};

verus! {

/// The signed 16-bit value of two bytes, high byte first.
pub open spec fn word(high: u8, low: u8) -> int {
    let unsigned = high * 256 + low;
    if unsigned >= 32768 {
        unsigned - 65536
    } else {
        unsigned
    }
}

/// Degrees Celsius for a raw temperature word: `raw / 132.48 + 25`.
pub open spec fn celsius(raw: int) -> Rational {
    Rational { num: 100 * raw + 25 * 13248, den: 13248 }
}

/// What a burst of fourteen bytes says at the given resolutions:
/// temperature first, then three words of acceleration, then three words
/// of angular rate.
pub open spec fn decode(block: Seq<u8>, accel: Rational, gyro: Rational) -> SampleView {
    SampleView {
        temperature: celsius(word(block[0], block[1])),
        accel: Seq::new(3, |axis: int| accel.times(word(block[2 + 2 * axis], block[3 + 2 * axis]))),
        gyro: Seq::new(3, |axis: int| gyro.times(word(block[8 + 2 * axis], block[9 + 2 * axis]))),
    }
}

/// The mathematical content of a [`Sample`].
pub struct SampleView {
    pub temperature: Rational,
    pub accel: Seq<Rational>,
    pub gyro: Seq<Rational>,
}

impl SampleView {
    /// All values zero.
    pub open spec fn zero() -> SampleView {
        SampleView {
            temperature: Rational::zero(),
            accel: Seq::new(3, |axis: int| Rational::zero()),
            gyro: Seq::new(3, |axis: int| Rational::zero()),
        }
    }

    /// Three axes each, and every value a fraction with a positive
    /// denominator.
    pub open spec fn valid(self) -> bool {
        &&& self.temperature.valid()
        &&& self.accel.len() == 3
        &&& self.gyro.len() == 3
        &&& forall|axis: int| 0 <= axis < 3 ==> (#[trigger] self.accel[axis]).valid()
        &&& forall|axis: int| 0 <= axis < 3 ==> (#[trigger] self.gyro[axis]).valid()
    }
}

/// The latest measurement, in physical units.
#[derive(Clone, Copy, Debug, PartialEq, Eq)]
pub struct Sample {
    /// Degrees Celsius.
    pub temperature: Quantity,
    /// Acceleration along x, y and z.
    pub accel: [Quantity; 3],
    /// Angular rate around x, y and z.
    pub gyro: [Quantity; 3],
}

impl View for Sample {
    type V = SampleView;

    open spec fn view(&self) -> SampleView {
        SampleView {
            temperature: self.temperature@,
            accel: Seq::new(3, |axis: int| self.accel[axis]@),
            gyro: Seq::new(3, |axis: int| self.gyro[axis]@),
        }
    }
}

/// Reads two bytes, high byte first, as a signed 16-bit word.
pub fn be_word(high: u8, low: u8) -> (raw: i16)
    ensures
        raw == word(high, low),
{
    let unsigned: i32 = (high as i32) * 256 + (low as i32);
    if unsigned >= 32768 {
        (unsigned - 65536) as i16
    } else {
        unsigned as i16
    }
}

/// Converts a raw temperature word to degrees Celsius.
pub fn temperature(raw: i16) -> (degrees: Quantity)
    ensures
        degrees@ == celsius(raw as int),
{
    Quantity { num: 100 * (raw as i64) + 25 * 13248, den: 13248 }
}

impl Sample {
    /// All values zero.
    pub fn zero() -> (sample: Sample)
        ensures
            sample@ == SampleView::zero(),
    {
        let zero = Quantity::zero();
        let sample = Sample { temperature: zero, accel: [zero, zero, zero], gyro: [zero, zero, zero] };
        assert(sample@.accel =~= SampleView::zero().accel);
        assert(sample@.gyro =~= SampleView::zero().gyro);
        sample
    }

    /// Converts one burst.  A block that is not exactly fourteen bytes
    /// long is no burst and gives `None`.
    pub fn decode(block: &[u8], accel: Resolution, gyro: Resolution) -> (sample: Option<Sample>)
        ensures
            sample is Some <==> block@.len() == 14,
            sample matches Some(s) ==> s@ == decode(block@, accel@, gyro@),
    {
        if block.len() != 14 {
            return None;
        }
        let sample = Sample {
            temperature: temperature(be_word(block[0], block[1])),
            accel: [
                accel.scale(be_word(block[2], block[3])),
                accel.scale(be_word(block[4], block[5])),
                accel.scale(be_word(block[6], block[7])),
            ],
            gyro: [
                gyro.scale(be_word(block[8], block[9])),
                gyro.scale(be_word(block[10], block[11])),
                gyro.scale(be_word(block[12], block[13])),
            ],
        };
        proof {
            let expected = decode(block@, accel@, gyro@);
            assert(sample@.accel =~= expected.accel);
            assert(sample@.gyro =~= expected.gyro);
        }
        Some(sample)
    }
}

} // verus!
