//! User offset registers: one signed byte of offset correction per axis.
//!
//! Each register holds an 8-bit two's-complement value whose weight is set
//! by the `usr_off_w` field of control register 7.

use vstd::prelude::*;

verus! {

/// The signed value of an 8-bit two's-complement register byte.
pub open spec fn spec_i8_of_byte(b: u8) -> i8 {
    if b >= 128 {
        (b - 256) as i8
    } else {
        b as i8
    }
}

/// The register byte encoding a signed 8-bit value.
pub open spec fn spec_byte_of_i8(v: i8) -> u8 {
    if v < 0 {
        (v + 256) as u8
    } else {
        v as u8
    }
}

/// Decoding a byte and encoding it again restores the byte, and encoding a
/// value and decoding it again restores the value: the signed offset and
/// its register byte are in exact one-to-one correspondence.
pub proof fn lemma_offset_byte_roundtrip(b: u8, v: i8)
    ensures
        spec_byte_of_i8(spec_i8_of_byte(b)) == b,
        spec_i8_of_byte(spec_byte_of_i8(v)) == v,
{
}

/// Decode a signed offset register byte.
pub fn i8_of_byte(b: u8) -> (v: i8)
    ensures
        v == spec_i8_of_byte(b),
{
    if b >= 128 {
        ((b as i16) - 256) as i8
    } else {
        b as i8
    }
}

/// Encode a signed offset into its register byte.
pub fn byte_of_i8(v: i8) -> (b: u8)
    ensures
        b == spec_byte_of_i8(v),
{
    if v < 0 {
        ((v as i16) + 256) as u8
    } else {
        v as u8
    }
}

/// X-axis user offset register.
#[derive(Clone, Copy, Debug, PartialEq, Eq, Structural)]
pub struct XOfsUsr {
    /// Offset correction applied to the X-axis output.
    pub x_ofs_usr: i8,
}

impl XOfsUsr {
    /// The record held in a register byte.
    pub open spec fn spec_from_bits(b: u8) -> XOfsUsr {
        XOfsUsr { x_ofs_usr: spec_i8_of_byte(b) }
    }

    /// The register byte encoding the record.
    pub open spec fn spec_to_bits(self) -> u8 {
        spec_byte_of_i8(self.x_ofs_usr)
    }

    /// Decode a register byte.
    pub fn from_bits(b: u8) -> (r: XOfsUsr)
        ensures
            r == XOfsUsr::spec_from_bits(b),
    {
        XOfsUsr { x_ofs_usr: i8_of_byte(b) }
    }

    /// Encode the record into a register byte.
    pub fn to_bits(self) -> (b: u8)
        ensures
            b == self.spec_to_bits(),
    {
        byte_of_i8(self.x_ofs_usr)
    }
}

/// Y-axis user offset register.
#[derive(Clone, Copy, Debug, PartialEq, Eq, Structural)]
pub struct YOfsUsr {
    /// Offset correction applied to the Y-axis output.
    pub y_ofs_usr: i8,
}

impl YOfsUsr {
    /// The record held in a register byte.
    pub open spec fn spec_from_bits(b: u8) -> YOfsUsr {
        YOfsUsr { y_ofs_usr: spec_i8_of_byte(b) }
    }

    /// The register byte encoding the record.
    pub open spec fn spec_to_bits(self) -> u8 {
        spec_byte_of_i8(self.y_ofs_usr)
    }

    /// Decode a register byte.
    pub fn from_bits(b: u8) -> (r: YOfsUsr)
        ensures
            r == YOfsUsr::spec_from_bits(b),
    {
        YOfsUsr { y_ofs_usr: i8_of_byte(b) }
    }

    /// Encode the record into a register byte.
    pub fn to_bits(self) -> (b: u8)
        ensures
            b == self.spec_to_bits(),
    {
        byte_of_i8(self.y_ofs_usr)
    }
}

/// Z-axis user offset register.
#[derive(Clone, Copy, Debug, PartialEq, Eq, Structural)]
pub struct ZOfsUsr {
    /// Offset correction applied to the Z-axis output.
    pub z_ofs_usr: i8,
}

impl ZOfsUsr {
    /// The record held in a register byte.
    pub open spec fn spec_from_bits(b: u8) -> ZOfsUsr {
        ZOfsUsr { z_ofs_usr: spec_i8_of_byte(b) }
    }

    /// The register byte encoding the record.
    pub open spec fn spec_to_bits(self) -> u8 {
        spec_byte_of_i8(self.z_ofs_usr)
    }

    /// Decode a register byte.
    pub fn from_bits(b: u8) -> (r: ZOfsUsr)
        ensures
            r == ZOfsUsr::spec_from_bits(b),
    {
        ZOfsUsr { z_ofs_usr: i8_of_byte(b) }
    }

    /// Encode the record into a register byte.
    pub fn to_bits(self) -> (b: u8)
        ensures
            b == self.spec_to_bits(),
    {
        byte_of_i8(self.z_ofs_usr)
    }
}

} // verus!
