//! 16-bit output registers: temperature and the three acceleration axes.
//!
//! Each sample is a left-justified two's-complement value occupying the top
//! 12 (temperature) or 14 (acceleration) bits of a 16-bit word read as two
//! little-endian bytes.  Decoding extracts the occupied bits and
//! sign-extends them to a full `i16`.

use vstd::prelude::*;

verus! {

/// The 16-bit word assembled from a little-endian pair of register bytes.
pub open spec fn spec_word(lo: u8, hi: u8) -> u16 {
    (lo + hi * 256) as u16
}

/// The signed value of a 12-bit two's-complement pattern.
pub open spec fn spec_sign_extend12(u: u16) -> i16 {
    if u >= 0x800 {
        (u - 0x1000) as i16
    } else {
        u as i16
    }
}

/// The signed value of a 14-bit two's-complement pattern.
pub open spec fn spec_sign_extend14(u: u16) -> i16 {
    if u >= 0x2000 {
        (u - 0x4000) as i16
    } else {
        u as i16
    }
}

/// A 12-bit pattern with its top bit set decodes to the negative value that
/// two's complement assigns it, down to -2048 for the pattern 0x800; every
/// pattern with the top bit clear decodes to itself.
pub proof fn lemma_sign_extension12(u: u16)
    requires
        u < 0x1000,
    ensures
        0x800 <= u ==> spec_sign_extend12(u) == u - 0x1000 && spec_sign_extend12(u) < 0,
        u < 0x800 ==> spec_sign_extend12(u) == u,
        -2048 <= spec_sign_extend12(u) < 2048,
{
}

/// A 14-bit pattern with its top bit set decodes to the negative value that
/// two's complement assigns it, down to -8192 for the pattern 0x2000; every
/// pattern with the top bit clear decodes to itself.
pub proof fn lemma_sign_extension14(u: u16)
    requires
        u < 0x4000,
    ensures
        0x2000 <= u ==> spec_sign_extend14(u) == u - 0x4000 && spec_sign_extend14(u) < 0,
        u < 0x2000 ==> spec_sign_extend14(u) == u,
        -8192 <= spec_sign_extend14(u) < 8192,
{
}

/// The low two and high fourteen bits of a word, and the low four and high
/// twelve, are bounded by the widths of their spans.
proof fn lemma_word_split(w: u16)
    ensures
        (w & 0x03) < 4,
        (w >> 2) < 0x4000,
        (w & 0x0F) < 16,
        (w >> 4) < 0x1000,
{
    assert((w & 0x03) < 4 && (w >> 2) < 0x4000 && (w & 0x0F) < 16 && (w >> 4) < 0x1000)
        by (bit_vector);
}

/// Temperature output register: a 12-bit sample in the top bits of the word.
#[derive(Clone, Copy, Debug, PartialEq, Eq, Structural)]
pub struct OutT {
    /// Reserved low bits of the word (bits 0-3).
    pub not_used: u8,
    /// Temperature sample, sign-extended from 12 bits (bits 4-15).
    pub temp: i16,
}

impl OutT {
    /// The record held in the 16-bit register word.
    pub open spec fn spec_from_bits(w: u16) -> OutT {
        OutT { not_used: (w & 0x0F) as u8, temp: spec_sign_extend12(w >> 4) }
    }

    /// Decode the 16-bit register word.
    pub fn from_bits(w: u16) -> (r: OutT)
        ensures
            r == OutT::spec_from_bits(w),
            -2048 <= r.temp < 2048,
    {
        proof {
            lemma_word_split(w);
        }
        let u: u16 = w >> 4;
        let temp: i16 = if u >= 0x800 {
            (u as i32 - 0x1000) as i16
        } else {
            u as i16
        };
        OutT { not_used: (w & 0x0F) as u8, temp }
    }
}

/// X-axis output register: a 14-bit sample in the top bits of the word.
#[derive(Clone, Copy, Debug, PartialEq, Eq, Structural)]
pub struct OutX {
    /// Reserved low bits of the word (bits 0-1).
    pub not_used: u8,
    /// X-axis acceleration sample, sign-extended from 14 bits (bits 2-15).
    pub x: i16,
}

impl OutX {
    /// The record held in the 16-bit register word.
    pub open spec fn spec_from_bits(w: u16) -> OutX {
        OutX { not_used: (w & 0x03) as u8, x: spec_sign_extend14(w >> 2) }
    }

    /// Decode the 16-bit register word.
    pub fn from_bits(w: u16) -> (r: OutX)
        ensures
            r == OutX::spec_from_bits(w),
            -8192 <= r.x < 8192,
    {
        proof {
            lemma_word_split(w);
        }
        let u: u16 = w >> 2;
        let x: i16 = if u >= 0x2000 {
            (u as i32 - 0x4000) as i16
        } else {
            u as i16
        };
        OutX { not_used: (w & 0x03) as u8, x }
    }
}

/// Y-axis output register: a 14-bit sample in the top bits of the word.
#[derive(Clone, Copy, Debug, PartialEq, Eq, Structural)]
pub struct OutY {
    /// Reserved low bits of the word (bits 0-1).
    pub not_used: u8,
    /// Y-axis acceleration sample, sign-extended from 14 bits (bits 2-15).
    pub y: i16,
}

impl OutY {
    /// The record held in the 16-bit register word.
    pub open spec fn spec_from_bits(w: u16) -> OutY {
        OutY { not_used: (w & 0x03) as u8, y: spec_sign_extend14(w >> 2) }
    }

    /// Decode the 16-bit register word.
    pub fn from_bits(w: u16) -> (r: OutY)
        ensures
            r == OutY::spec_from_bits(w),
            -8192 <= r.y < 8192,
    {
        proof {
            lemma_word_split(w);
        }
        let u: u16 = w >> 2;
        let y: i16 = if u >= 0x2000 {
            (u as i32 - 0x4000) as i16
        } else {
            u as i16
        };
        OutY { not_used: (w & 0x03) as u8, y }
    }
}

/// Z-axis output register: a 14-bit sample in the top bits of the word.
#[derive(Clone, Copy, Debug, PartialEq, Eq, Structural)]
pub struct OutZ {
    /// Reserved low bits of the word (bits 0-1).
    pub not_used: u8,
    /// Z-axis acceleration sample, sign-extended from 14 bits (bits 2-15).
    pub z: i16,
}

impl OutZ {
    /// The record held in the 16-bit register word.
    pub open spec fn spec_from_bits(w: u16) -> OutZ {
        OutZ { not_used: (w & 0x03) as u8, z: spec_sign_extend14(w >> 2) }
    }

    /// Decode the 16-bit register word.
    pub fn from_bits(w: u16) -> (r: OutZ)
        ensures
            r == OutZ::spec_from_bits(w),
            -8192 <= r.z < 8192,
    {
        proof {
            lemma_word_split(w);
        }
        let u: u16 = w >> 2;
        let z: i16 = if u >= 0x2000 {
            (u as i32 - 0x4000) as i16
        } else {
            u as i16
        };
        OutZ { not_used: (w & 0x03) as u8, z }
    }
}

} // verus!
