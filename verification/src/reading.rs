//! From the two bytes of the conversion register to a voltage.

use byteorder::{BigEndian, ByteOrder};
use vstd::prelude::*;

use crate::options::FULL_SCALE_CODE;

verus! {

/// The signed 16-bit number that two bytes hold in two's complement, most
/// significant byte first.
pub open spec fn big_endian_i16(high: u8, low: u8) -> int {
    let unsigned = 256 * high + low;
    if unsigned < 32768 {
        unsigned
    } else {
        unsigned - 65536
    }
}

/// Decodes the receive buffer with `byteorder::BigEndian::read_i16`.
///
/// Trusted, not proved: that the call returns the two's-complement value of
/// the buffer's two bytes, first byte most significant. The buffer always
/// holds the two bytes that the call needs, so it cannot panic.
#[verifier::external_body]
pub(crate) fn read_i16_big_endian(buffer: &[u8; 2]) -> (raw: i16)
    ensures
        raw == big_endian_i16(buffer[0], buffer[1]),
{
    BigEndian::read_i16(buffer)
}

/// One sample: the raw code that the converter returned, and the full-scale
/// range under which it was taken.
///
/// The voltage it stands for is `raw * full_scale_millivolts /`
/// [`FULL_SCALE_CODE`] millivolts. Nothing is clamped: the code `-32768`, one
/// past negative full scale, gives a voltage just below the negative
/// full-scale voltage.
#[derive(Debug, Clone, Copy, PartialEq, Eq, Structural)]
pub struct Reading {
    /// The signed code from the conversion register.
    pub raw: i16,
    /// Full-scale voltage of the gain setting, in millivolts.
    pub full_scale_millivolts: u16,
}

impl Reading {
    /// The voltage in millivolts, times [`FULL_SCALE_CODE`].
    pub open spec fn spec_millivolt_numerator(&self) -> int {
        self.raw * self.full_scale_millivolts
    }

    /// The voltage as an exact fraction: the result divided by
    /// [`FULL_SCALE_CODE`] is the voltage in millivolts.
    pub fn millivolt_numerator(&self) -> (numerator: i32)
        ensures
            numerator == self.spec_millivolt_numerator(),
    {
        let raw: i32 = self.raw as i32;
        let scale: i32 = self.full_scale_millivolts as i32;
        assert(-32768 * 65535 <= raw * scale <= 32767 * 65535) by (nonlinear_arith)
            requires
                -32768 <= raw <= 32767,
                0 <= scale <= 65535,
        ;
        raw * scale
    }
}

/// No reading is clamped, and none needs to be: the voltage lies between
/// one code past negative full scale and positive full scale. A raw code of
/// positive full scale reads as exactly the full-scale voltage, and a raw
/// code of zero as zero volts.
pub proof fn lemma_reading_range(reading: Reading)
    ensures
        -32768 * reading.full_scale_millivolts <= reading.spec_millivolt_numerator() <= 32767
            * reading.full_scale_millivolts,
        reading.raw == FULL_SCALE_CODE ==> reading.spec_millivolt_numerator()
            == reading.full_scale_millivolts * FULL_SCALE_CODE,
        reading.raw == 0 ==> reading.spec_millivolt_numerator() == 0,
{
    let raw = reading.raw as int;
    let scale = reading.full_scale_millivolts as int;
    assert(-32768 * scale <= raw * scale <= 32767 * scale && (raw == 0 ==> raw * scale == 0))
        by (nonlinear_arith)
        requires
            -32768 <= raw <= 32767,
            0 <= scale,
    ;
}

} // verus!
