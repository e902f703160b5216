//! Fixed-point unit conversions for raw sensor samples.
//!
//! The datasheet gives one sensitivity constant per full-scale range,
//! doubled once more in low-power mode 1, and a fixed linear transform for
//! the temperature sensor.  Every constant is an exact multiple of one
//! micro-g (or one micro-degree Celsius), so the conversions are stated
//! here exactly, in micro-units over plain integers; dividing a result by
//! 1000 gives the datasheet's mg (or milli-degree) figure.
//!
//! The caller applies the conversion matching the full-scale range and
//! power mode it configured; the driver does not track them.

use vstd::prelude::*;

verus! {

/// Micro-g per LSB at the ±2 g full scale (0.244 mg/LSB).
pub const UG_PER_LSB_FS2: i32 = 244;

/// Micro-g per LSB at the ±4 g full scale (0.488 mg/LSB).
pub const UG_PER_LSB_FS4: i32 = 488;

/// Micro-g per LSB at the ±8 g full scale (0.976 mg/LSB).
pub const UG_PER_LSB_FS8: i32 = 976;

/// Micro-g per LSB at the ±16 g full scale (1.952 mg/LSB).
pub const UG_PER_LSB_FS16: i32 = 1952;

/// Micro-g per LSB at ±2 g in low-power mode 1 (0.976 mg/LSB).
pub const UG_PER_LSB_FS2_LP1: i32 = 976;

/// Micro-g per LSB at ±4 g in low-power mode 1 (1.952 mg/LSB).
pub const UG_PER_LSB_FS4_LP1: i32 = 1952;

/// Micro-g per LSB at ±8 g in low-power mode 1 (3.904 mg/LSB).
pub const UG_PER_LSB_FS8_LP1: i32 = 3904;

/// Micro-g per LSB at ±16 g in low-power mode 1 (7.808 mg/LSB).
pub const UG_PER_LSB_FS16_LP1: i32 = 7808;

/// Micro-degrees Celsius per temperature LSB (16 LSB per degree).
pub const UDEGC_PER_LSB: i32 = 62500;

/// The temperature the sensor reports as zero, in micro-degrees Celsius.
pub const UDEGC_OFFSET: i32 = 25000000;

/// Convert a raw sample at the ±2 g full scale to micro-g.
pub fn from_fs2_to_ug(lsb: i16) -> (r: i32)
    ensures
        r == lsb * UG_PER_LSB_FS2,
{
    (lsb as i32) * UG_PER_LSB_FS2
}

/// Convert a raw sample at the ±4 g full scale to micro-g.
pub fn from_fs4_to_ug(lsb: i16) -> (r: i32)
    ensures
        r == lsb * UG_PER_LSB_FS4,
{
    (lsb as i32) * UG_PER_LSB_FS4
}

/// Convert a raw sample at the ±8 g full scale to micro-g.
pub fn from_fs8_to_ug(lsb: i16) -> (r: i32)
    ensures
        r == lsb * UG_PER_LSB_FS8,
{
    (lsb as i32) * UG_PER_LSB_FS8
}

/// Convert a raw sample at the ±16 g full scale to micro-g.
pub fn from_fs16_to_ug(lsb: i16) -> (r: i32)
    ensures
        r == lsb * UG_PER_LSB_FS16,
{
    (lsb as i32) * UG_PER_LSB_FS16
}

/// Convert a raw sample at ±2 g in low-power mode 1 to micro-g.
pub fn from_fs2_lp1_to_ug(lsb: i16) -> (r: i32)
    ensures
        r == lsb * UG_PER_LSB_FS2_LP1,
{
    (lsb as i32) * UG_PER_LSB_FS2_LP1
}

/// Convert a raw sample at ±4 g in low-power mode 1 to micro-g.
pub fn from_fs4_lp1_to_ug(lsb: i16) -> (r: i32)
    ensures
        r == lsb * UG_PER_LSB_FS4_LP1,
{
    (lsb as i32) * UG_PER_LSB_FS4_LP1
}

/// Convert a raw sample at ±8 g in low-power mode 1 to micro-g.
pub fn from_fs8_lp1_to_ug(lsb: i16) -> (r: i32)
    ensures
        r == lsb * UG_PER_LSB_FS8_LP1,
{
    (lsb as i32) * UG_PER_LSB_FS8_LP1
}

/// Convert a raw sample at ±16 g in low-power mode 1 to micro-g.
pub fn from_fs16_lp1_to_ug(lsb: i16) -> (r: i32)
    ensures
        r == lsb * UG_PER_LSB_FS16_LP1,
{
    (lsb as i32) * UG_PER_LSB_FS16_LP1
}

/// Convert a raw temperature sample to micro-degrees Celsius: sixteen LSB
/// per degree around a 25 degree zero point.
pub fn from_lsb_to_ucelsius(lsb: i16) -> (r: i32)
    ensures
        r == lsb * UDEGC_PER_LSB + UDEGC_OFFSET,
{
    (lsb as i32) * UDEGC_PER_LSB + UDEGC_OFFSET
}

} // verus!
