//! Decoding of the MPU6050 measurement block.
//!
//! | Sensor  | Register Address        | Bytes |
//! | ------- | ----------------------- | ----- |
//! | Accel X | 0x3B (high), 0x3C (low) | 2     |
//! | Accel Y | 0x3D, 0x3E              | 2     |
//! | Accel Z | 0x3F, 0x40              | 2     |
//! | Temp    | 0x41, 0x42              | 2     |
//! | Gyro X  | 0x43, 0x44              | 2     |
//! | Gyro Y  | 0x45, 0x46              | 2     |
//! | Gyro Z  | 0x47, 0x48              | 2     |
//!
//! Each reading is a big-endian two's-complement 16-bit integer. The
//! scaling to m/s^2 and rad/s is floating-point and is done by the caller.

use vstd::prelude::*;

verus! {

/// The integer that a big-endian two's-complement byte pair encodes.
pub open spec fn be_i16(high: u8, low: u8) -> int {
    if high < 128 {
        high * 256 + low
    } else {
        high * 256 + low - 65536
    }
}

/// Decodes a big-endian two's-complement byte pair (as `i16::from_be_bytes`).
pub fn i16_from_be_bytes(high: u8, low: u8) -> (value: i16)
    ensures
        value == be_i16(high, low),
{
    if high < 128 {
        (high as i16) * 256 + (low as i16)
    } else {
        ((high as i16) - 256) * 256 + (low as i16)
    }
}

/// The raw accelerometer and gyroscope readings of one measurement block,
/// in the sensor's own axes and units.
#[derive(Clone, Copy, Debug, PartialEq, Eq, Structural)]
pub struct RawSensorValues {
    pub ax: i16,
    pub ay: i16,
    pub az: i16,
    pub gx: i16,
    pub gy: i16,
    pub gz: i16,
}

impl RawSensorValues {
    /// Decodes the 14-byte measurement block; the temperature (bytes 6 and 7) is not read.
    pub fn new(buffer: &[u8; 14]) -> (values: Self)
        ensures
            values.ax == be_i16(buffer@[0], buffer@[1]),
            values.ay == be_i16(buffer@[2], buffer@[3]),
            values.az == be_i16(buffer@[4], buffer@[5]),
            values.gx == be_i16(buffer@[8], buffer@[9]),
            values.gy == be_i16(buffer@[10], buffer@[11]),
            values.gz == be_i16(buffer@[12], buffer@[13]),
    {
        RawSensorValues {
            ax: i16_from_be_bytes(buffer[0], buffer[1]),
            ay: i16_from_be_bytes(buffer[2], buffer[3]),
            az: i16_from_be_bytes(buffer[4], buffer[5]),
            gx: i16_from_be_bytes(buffer[8], buffer[9]),
            gy: i16_from_be_bytes(buffer[10], buffer[11]),
            gz: i16_from_be_bytes(buffer[12], buffer[13]),
        }
    }
}

/// Sample rate of the sensor with its low-pass filter on (1 kHz base rate)
/// and the given sample-rate divider.
pub fn sample_rate_hz(divider: u8) -> (rate: u32)
    ensures
        rate == 1000int / (1 + divider as int),
{
    1000 / (1 + divider as u32)
}

/// Every 16-bit pattern is the encoding of exactly one value: decoding is
/// one to one and reaches the whole `i16` range.
pub proof fn law_be_i16_bijective(h1: u8, l1: u8, h2: u8, l2: u8)
    ensures
        i16::MIN <= be_i16(h1, l1) <= i16::MAX,
        be_i16(h1, l1) == be_i16(h2, l2) ==> h1 == h2 && l1 == l2,
{
}

/// The decoded value is the one 16-bit two's-complement integer whose bit
/// pattern is the high byte followed by the low byte: it lies in the `i16`
/// range, is negative exactly when the high byte's top bit is set, and is
/// congruent to `high * 256 + low` modulo 65536.
pub proof fn law_be_i16_encoding(high: u8, low: u8)
    ensures
        -32768 <= be_i16(high, low) <= 32767,
        be_i16(high, low) < 0 <==> high >= 128,
        (be_i16(high, low) + 65536) % 65536 == high * 256 + low,
{
}

} // verus!
