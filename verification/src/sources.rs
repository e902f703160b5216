//! Read-only status and event-source registers.
//!
//! These registers report what the device has detected; the driver only ever
//! decodes them.  Each is modelled as a record of its bit fields with the
//! exact decoding from the register byte.

use vstd::prelude::*;

verus! {

/// Status register: data-ready and event flags.
#[derive(Clone, Copy, Debug, PartialEq, Eq, Structural)]
pub struct Status {
    /// New X, Y and Z data is available (bit 0).
    pub drdy: u8,
    /// Free-fall event detected (bit 1).
    pub ff_ia: u8,
    /// Change of position detected by the 6D function (bit 2).
    pub six_d_ia: u8,
    /// Single-tap event detected (bit 3).
    pub single_tap: u8,
    /// Double-tap event detected (bit 4).
    pub double_tap: u8,
    /// The device is in the sleep state (bit 5).
    pub sleep_state: u8,
    /// Wake-up event detected (bit 6).
    pub wu_ia: u8,
    /// FIFO filling has reached the watermark (bit 7).
    pub fifo_ths: u8,
}

impl Status {
    /// Each field fits the width of its bit span.
    pub open spec fn wf(self) -> bool {
        self.drdy < 2
        && self.ff_ia < 2
        && self.six_d_ia < 2
        && self.single_tap < 2
        && self.double_tap < 2
        && self.sleep_state < 2
        && self.wu_ia < 2
        && self.fifo_ths < 2
    }

    /// The record held in a register byte.
    pub open spec fn spec_from_bits(b: u8) -> Status {
        Status {
            drdy: b & 0x01,
            ff_ia: (b >> 1) & 0x01,
            six_d_ia: (b >> 2) & 0x01,
            single_tap: (b >> 3) & 0x01,
            double_tap: (b >> 4) & 0x01,
            sleep_state: (b >> 5) & 0x01,
            wu_ia: (b >> 6) & 0x01,
            fifo_ths: b >> 7,
        }
    }

    /// The register byte encoding the record; every field is truncated
    /// to the width of its bit span.
    pub open spec fn spec_to_bits(self) -> u8 {
        (self.drdy & 0x01) |
            ((self.ff_ia & 0x01) << 1) |
            ((self.six_d_ia & 0x01) << 2) |
            ((self.single_tap & 0x01) << 3) |
            ((self.double_tap & 0x01) << 4) |
            ((self.sleep_state & 0x01) << 5) |
            ((self.wu_ia & 0x01) << 6) |
            ((self.fifo_ths & 0x01) << 7)
    }

    /// Decode a register byte.
    pub fn from_bits(b: u8) -> (r: Status)
        ensures
            r == Status::spec_from_bits(b),
            r.wf(),
    {
        proof {
            Status::lemma_bits_roundtrip(b);
        }
        Status {
            drdy: b & 0x01,
            ff_ia: (b >> 1) & 0x01,
            six_d_ia: (b >> 2) & 0x01,
            single_tap: (b >> 3) & 0x01,
            double_tap: (b >> 4) & 0x01,
            sleep_state: (b >> 5) & 0x01,
            wu_ia: (b >> 6) & 0x01,
            fifo_ths: b >> 7,
        }
    }

    /// Encode the record into a register byte.
    pub fn to_bits(self) -> (b: u8)
        ensures
            b == self.spec_to_bits(),
    {
        (self.drdy & 0x01) |
            ((self.ff_ia & 0x01) << 1) |
            ((self.six_d_ia & 0x01) << 2) |
            ((self.single_tap & 0x01) << 3) |
            ((self.double_tap & 0x01) << 4) |
            ((self.sleep_state & 0x01) << 5) |
            ((self.wu_ia & 0x01) << 6) |
            ((self.fifo_ths & 0x01) << 7)
    }

    /// Decoding yields a well-formed record, and encoding it again
    /// restores the exact byte: a read-modify-write that changes no
    /// field writes back precisely what it read.
    pub proof fn lemma_bits_roundtrip(b: u8)
        ensures
            Status::spec_from_bits(b).wf(),
            Status::spec_from_bits(b).spec_to_bits() == b,
    {
        assert((b & 0x01) < 2
            && ((b >> 1) & 0x01) < 2
            && ((b >> 2) & 0x01) < 2
            && ((b >> 3) & 0x01) < 2
            && ((b >> 4) & 0x01) < 2
            && ((b >> 5) & 0x01) < 2
            && ((b >> 6) & 0x01) < 2
            && (b >> 7) < 2
            && (((b & 0x01) & 0x01) |
                ((((b >> 1) & 0x01) & 0x01) << 1) |
                ((((b >> 2) & 0x01) & 0x01) << 2) |
                ((((b >> 3) & 0x01) & 0x01) << 3) |
                ((((b >> 4) & 0x01) & 0x01) << 4) |
                ((((b >> 5) & 0x01) & 0x01) << 5) |
                ((((b >> 6) & 0x01) & 0x01) << 6) |
                (((b >> 7) & 0x01) << 7)) == b) by (bit_vector);
    }
}

/// Status duplicate register: the same event flags at a second address.
#[derive(Clone, Copy, Debug, PartialEq, Eq, Structural)]
pub struct StatusDup {
    /// New X, Y and Z data is available (bit 0).
    pub drdy: u8,
    /// Free-fall event detected (bit 1).
    pub ff_ia: u8,
    /// Change of position detected by the 6D function (bit 2).
    pub six_d_ia: u8,
    /// Single-tap event detected (bit 3).
    pub single_tap: u8,
    /// Double-tap event detected (bit 4).
    pub double_tap: u8,
    /// Sleep event detected (bit 5).
    pub sleep_state_ia: u8,
    /// New temperature data is available (bit 6).
    pub drdy_t: u8,
    /// FIFO overrun: a sample has been overwritten (bit 7).
    pub ovr: u8,
}

impl StatusDup {
    /// Each field fits the width of its bit span.
    pub open spec fn wf(self) -> bool {
        self.drdy < 2
        && self.ff_ia < 2
        && self.six_d_ia < 2
        && self.single_tap < 2
        && self.double_tap < 2
        && self.sleep_state_ia < 2
        && self.drdy_t < 2
        && self.ovr < 2
    }

    /// The record held in a register byte.
    pub open spec fn spec_from_bits(b: u8) -> StatusDup {
        StatusDup {
            drdy: b & 0x01,
            ff_ia: (b >> 1) & 0x01,
            six_d_ia: (b >> 2) & 0x01,
            single_tap: (b >> 3) & 0x01,
            double_tap: (b >> 4) & 0x01,
            sleep_state_ia: (b >> 5) & 0x01,
            drdy_t: (b >> 6) & 0x01,
            ovr: b >> 7,
        }
    }

    /// The register byte encoding the record; every field is truncated
    /// to the width of its bit span.
    pub open spec fn spec_to_bits(self) -> u8 {
        (self.drdy & 0x01) |
            ((self.ff_ia & 0x01) << 1) |
            ((self.six_d_ia & 0x01) << 2) |
            ((self.single_tap & 0x01) << 3) |
            ((self.double_tap & 0x01) << 4) |
            ((self.sleep_state_ia & 0x01) << 5) |
            ((self.drdy_t & 0x01) << 6) |
            ((self.ovr & 0x01) << 7)
    }

    /// Decode a register byte.
    pub fn from_bits(b: u8) -> (r: StatusDup)
        ensures
            r == StatusDup::spec_from_bits(b),
            r.wf(),
    {
        proof {
            StatusDup::lemma_bits_roundtrip(b);
        }
        StatusDup {
            drdy: b & 0x01,
            ff_ia: (b >> 1) & 0x01,
            six_d_ia: (b >> 2) & 0x01,
            single_tap: (b >> 3) & 0x01,
            double_tap: (b >> 4) & 0x01,
            sleep_state_ia: (b >> 5) & 0x01,
            drdy_t: (b >> 6) & 0x01,
            ovr: b >> 7,
        }
    }

    /// Encode the record into a register byte.
    pub fn to_bits(self) -> (b: u8)
        ensures
            b == self.spec_to_bits(),
    {
        (self.drdy & 0x01) |
            ((self.ff_ia & 0x01) << 1) |
            ((self.six_d_ia & 0x01) << 2) |
            ((self.single_tap & 0x01) << 3) |
            ((self.double_tap & 0x01) << 4) |
            ((self.sleep_state_ia & 0x01) << 5) |
            ((self.drdy_t & 0x01) << 6) |
            ((self.ovr & 0x01) << 7)
    }

    /// Decoding yields a well-formed record, and encoding it again
    /// restores the exact byte: a read-modify-write that changes no
    /// field writes back precisely what it read.
    pub proof fn lemma_bits_roundtrip(b: u8)
        ensures
            StatusDup::spec_from_bits(b).wf(),
            StatusDup::spec_from_bits(b).spec_to_bits() == b,
    {
        assert((b & 0x01) < 2
            && ((b >> 1) & 0x01) < 2
            && ((b >> 2) & 0x01) < 2
            && ((b >> 3) & 0x01) < 2
            && ((b >> 4) & 0x01) < 2
            && ((b >> 5) & 0x01) < 2
            && ((b >> 6) & 0x01) < 2
            && (b >> 7) < 2
            && (((b & 0x01) & 0x01) |
                ((((b >> 1) & 0x01) & 0x01) << 1) |
                ((((b >> 2) & 0x01) & 0x01) << 2) |
                ((((b >> 3) & 0x01) & 0x01) << 3) |
                ((((b >> 4) & 0x01) & 0x01) << 4) |
                ((((b >> 5) & 0x01) & 0x01) << 5) |
                ((((b >> 6) & 0x01) & 0x01) << 6) |
                (((b >> 7) & 0x01) << 7)) == b) by (bit_vector);
    }
}

/// Wake-up source register: which axis woke the device.
#[derive(Clone, Copy, Debug, PartialEq, Eq, Structural)]
pub struct WakeUpSrc {
    /// Wake-up event on the Z-axis (bit 0).
    pub z_wu: u8,
    /// Wake-up event on the Y-axis (bit 1).
    pub y_wu: u8,
    /// Wake-up event on the X-axis (bit 2).
    pub x_wu: u8,
    /// Wake-up event detected (bit 3).
    pub wu_ia: u8,
    /// Sleep event detected (bit 4).
    pub sleep_state_ia: u8,
    /// Free-fall event detected (bit 5).
    pub ff_ia: u8,
    /// Reserved bits (bits 6-7).
    pub not_used_01: u8,
}

impl WakeUpSrc {
    /// Each field fits the width of its bit span.
    pub open spec fn wf(self) -> bool {
        self.z_wu < 2
        && self.y_wu < 2
        && self.x_wu < 2
        && self.wu_ia < 2
        && self.sleep_state_ia < 2
        && self.ff_ia < 2
        && self.not_used_01 < 4
    }

    /// The record held in a register byte.
    pub open spec fn spec_from_bits(b: u8) -> WakeUpSrc {
        WakeUpSrc {
            z_wu: b & 0x01,
            y_wu: (b >> 1) & 0x01,
            x_wu: (b >> 2) & 0x01,
            wu_ia: (b >> 3) & 0x01,
            sleep_state_ia: (b >> 4) & 0x01,
            ff_ia: (b >> 5) & 0x01,
            not_used_01: b >> 6,
        }
    }

    /// The register byte encoding the record; every field is truncated
    /// to the width of its bit span.
    pub open spec fn spec_to_bits(self) -> u8 {
        (self.z_wu & 0x01) |
            ((self.y_wu & 0x01) << 1) |
            ((self.x_wu & 0x01) << 2) |
            ((self.wu_ia & 0x01) << 3) |
            ((self.sleep_state_ia & 0x01) << 4) |
            ((self.ff_ia & 0x01) << 5) |
            ((self.not_used_01 & 0x03) << 6)
    }

    /// Decode a register byte.
    pub fn from_bits(b: u8) -> (r: WakeUpSrc)
        ensures
            r == WakeUpSrc::spec_from_bits(b),
            r.wf(),
    {
        proof {
            WakeUpSrc::lemma_bits_roundtrip(b);
        }
        WakeUpSrc {
            z_wu: b & 0x01,
            y_wu: (b >> 1) & 0x01,
            x_wu: (b >> 2) & 0x01,
            wu_ia: (b >> 3) & 0x01,
            sleep_state_ia: (b >> 4) & 0x01,
            ff_ia: (b >> 5) & 0x01,
            not_used_01: b >> 6,
        }
    }

    /// Encode the record into a register byte.
    pub fn to_bits(self) -> (b: u8)
        ensures
            b == self.spec_to_bits(),
    {
        (self.z_wu & 0x01) |
            ((self.y_wu & 0x01) << 1) |
            ((self.x_wu & 0x01) << 2) |
            ((self.wu_ia & 0x01) << 3) |
            ((self.sleep_state_ia & 0x01) << 4) |
            ((self.ff_ia & 0x01) << 5) |
            ((self.not_used_01 & 0x03) << 6)
    }

    /// Decoding yields a well-formed record, and encoding it again
    /// restores the exact byte: a read-modify-write that changes no
    /// field writes back precisely what it read.
    pub proof fn lemma_bits_roundtrip(b: u8)
        ensures
            WakeUpSrc::spec_from_bits(b).wf(),
            WakeUpSrc::spec_from_bits(b).spec_to_bits() == b,
    {
        assert((b & 0x01) < 2
            && ((b >> 1) & 0x01) < 2
            && ((b >> 2) & 0x01) < 2
            && ((b >> 3) & 0x01) < 2
            && ((b >> 4) & 0x01) < 2
            && ((b >> 5) & 0x01) < 2
            && (b >> 6) < 4
            && (((b & 0x01) & 0x01) |
                ((((b >> 1) & 0x01) & 0x01) << 1) |
                ((((b >> 2) & 0x01) & 0x01) << 2) |
                ((((b >> 3) & 0x01) & 0x01) << 3) |
                ((((b >> 4) & 0x01) & 0x01) << 4) |
                ((((b >> 5) & 0x01) & 0x01) << 5) |
                (((b >> 6) & 0x03) << 6)) == b) by (bit_vector);
    }
}

/// Tap source register: which axis was tapped and the tap kind.
#[derive(Clone, Copy, Debug, PartialEq, Eq, Structural)]
pub struct TapSrc {
    /// Tap event on the Z-axis (bit 0).
    pub z_tap: u8,
    /// Tap event on the Y-axis (bit 1).
    pub y_tap: u8,
    /// Tap event on the X-axis (bit 2).
    pub x_tap: u8,
    /// Sign of the acceleration that triggered the tap (bit 3).
    pub tap_sign: u8,
    /// Double-tap event detected (bit 4).
    pub double_tap: u8,
    /// Single-tap event detected (bit 5).
    pub single_tap: u8,
    /// Tap event detected (bit 6).
    pub tap_ia: u8,
    /// Reserved bit (bit 7).
    pub not_used_01: u8,
}

impl TapSrc {
    /// Each field fits the width of its bit span.
    pub open spec fn wf(self) -> bool {
        self.z_tap < 2
        && self.y_tap < 2
        && self.x_tap < 2
        && self.tap_sign < 2
        && self.double_tap < 2
        && self.single_tap < 2
        && self.tap_ia < 2
        && self.not_used_01 < 2
    }

    /// The record held in a register byte.
    pub open spec fn spec_from_bits(b: u8) -> TapSrc {
        TapSrc {
            z_tap: b & 0x01,
            y_tap: (b >> 1) & 0x01,
            x_tap: (b >> 2) & 0x01,
            tap_sign: (b >> 3) & 0x01,
            double_tap: (b >> 4) & 0x01,
            single_tap: (b >> 5) & 0x01,
            tap_ia: (b >> 6) & 0x01,
            not_used_01: b >> 7,
        }
    }

    /// The register byte encoding the record; every field is truncated
    /// to the width of its bit span.
    pub open spec fn spec_to_bits(self) -> u8 {
        (self.z_tap & 0x01) |
            ((self.y_tap & 0x01) << 1) |
            ((self.x_tap & 0x01) << 2) |
            ((self.tap_sign & 0x01) << 3) |
            ((self.double_tap & 0x01) << 4) |
            ((self.single_tap & 0x01) << 5) |
            ((self.tap_ia & 0x01) << 6) |
            ((self.not_used_01 & 0x01) << 7)
    }

    /// Decode a register byte.
    pub fn from_bits(b: u8) -> (r: TapSrc)
        ensures
            r == TapSrc::spec_from_bits(b),
            r.wf(),
    {
        proof {
            TapSrc::lemma_bits_roundtrip(b);
        }
        TapSrc {
            z_tap: b & 0x01,
            y_tap: (b >> 1) & 0x01,
            x_tap: (b >> 2) & 0x01,
            tap_sign: (b >> 3) & 0x01,
            double_tap: (b >> 4) & 0x01,
            single_tap: (b >> 5) & 0x01,
            tap_ia: (b >> 6) & 0x01,
            not_used_01: b >> 7,
        }
    }

    /// Encode the record into a register byte.
    pub fn to_bits(self) -> (b: u8)
        ensures
            b == self.spec_to_bits(),
    {
        (self.z_tap & 0x01) |
            ((self.y_tap & 0x01) << 1) |
            ((self.x_tap & 0x01) << 2) |
            ((self.tap_sign & 0x01) << 3) |
            ((self.double_tap & 0x01) << 4) |
            ((self.single_tap & 0x01) << 5) |
            ((self.tap_ia & 0x01) << 6) |
            ((self.not_used_01 & 0x01) << 7)
    }

    /// Decoding yields a well-formed record, and encoding it again
    /// restores the exact byte: a read-modify-write that changes no
    /// field writes back precisely what it read.
    pub proof fn lemma_bits_roundtrip(b: u8)
        ensures
            TapSrc::spec_from_bits(b).wf(),
            TapSrc::spec_from_bits(b).spec_to_bits() == b,
    {
        assert((b & 0x01) < 2
            && ((b >> 1) & 0x01) < 2
            && ((b >> 2) & 0x01) < 2
            && ((b >> 3) & 0x01) < 2
            && ((b >> 4) & 0x01) < 2
            && ((b >> 5) & 0x01) < 2
            && ((b >> 6) & 0x01) < 2
            && (b >> 7) < 2
            && (((b & 0x01) & 0x01) |
                ((((b >> 1) & 0x01) & 0x01) << 1) |
                ((((b >> 2) & 0x01) & 0x01) << 2) |
                ((((b >> 3) & 0x01) & 0x01) << 3) |
                ((((b >> 4) & 0x01) & 0x01) << 4) |
                ((((b >> 5) & 0x01) & 0x01) << 5) |
                ((((b >> 6) & 0x01) & 0x01) << 6) |
                (((b >> 7) & 0x01) << 7)) == b) by (bit_vector);
    }
}

/// 6D source register: which orientation thresholds are exceeded.
#[derive(Clone, Copy, Debug, PartialEq, Eq, Structural)]
pub struct SixdSrc {
    /// X-axis low-threshold state (bit 0).
    pub xl: u8,
    /// X-axis high-threshold state (bit 1).
    pub xh: u8,
    /// Y-axis low-threshold state (bit 2).
    pub yl: u8,
    /// Y-axis high-threshold state (bit 3).
    pub yh: u8,
    /// Z-axis low-threshold state (bit 4).
    pub zl: u8,
    /// Z-axis high-threshold state (bit 5).
    pub zh: u8,
    /// 6D orientation-change event detected (bit 6).
    pub six_d_ia: u8,
    /// Reserved bit (bit 7).
    pub not_used_01: u8,
}

impl SixdSrc {
    /// Each field fits the width of its bit span.
    pub open spec fn wf(self) -> bool {
        self.xl < 2
        && self.xh < 2
        && self.yl < 2
        && self.yh < 2
        && self.zl < 2
        && self.zh < 2
        && self.six_d_ia < 2
        && self.not_used_01 < 2
    }

    /// The record held in a register byte.
    pub open spec fn spec_from_bits(b: u8) -> SixdSrc {
        SixdSrc {
            xl: b & 0x01,
            xh: (b >> 1) & 0x01,
            yl: (b >> 2) & 0x01,
            yh: (b >> 3) & 0x01,
            zl: (b >> 4) & 0x01,
            zh: (b >> 5) & 0x01,
            six_d_ia: (b >> 6) & 0x01,
            not_used_01: b >> 7,
        }
    }

    /// The register byte encoding the record; every field is truncated
    /// to the width of its bit span.
    pub open spec fn spec_to_bits(self) -> u8 {
        (self.xl & 0x01) |
            ((self.xh & 0x01) << 1) |
            ((self.yl & 0x01) << 2) |
            ((self.yh & 0x01) << 3) |
            ((self.zl & 0x01) << 4) |
            ((self.zh & 0x01) << 5) |
            ((self.six_d_ia & 0x01) << 6) |
            ((self.not_used_01 & 0x01) << 7)
    }

    /// Decode a register byte.
    pub fn from_bits(b: u8) -> (r: SixdSrc)
        ensures
            r == SixdSrc::spec_from_bits(b),
            r.wf(),
    {
        proof {
            SixdSrc::lemma_bits_roundtrip(b);
        }
        SixdSrc {
            xl: b & 0x01,
            xh: (b >> 1) & 0x01,
            yl: (b >> 2) & 0x01,
            yh: (b >> 3) & 0x01,
            zl: (b >> 4) & 0x01,
            zh: (b >> 5) & 0x01,
            six_d_ia: (b >> 6) & 0x01,
            not_used_01: b >> 7,
        }
    }

    /// Encode the record into a register byte.
    pub fn to_bits(self) -> (b: u8)
        ensures
            b == self.spec_to_bits(),
    {
        (self.xl & 0x01) |
            ((self.xh & 0x01) << 1) |
            ((self.yl & 0x01) << 2) |
            ((self.yh & 0x01) << 3) |
            ((self.zl & 0x01) << 4) |
            ((self.zh & 0x01) << 5) |
            ((self.six_d_ia & 0x01) << 6) |
            ((self.not_used_01 & 0x01) << 7)
    }

    /// Decoding yields a well-formed record, and encoding it again
    /// restores the exact byte: a read-modify-write that changes no
    /// field writes back precisely what it read.
    pub proof fn lemma_bits_roundtrip(b: u8)
        ensures
            SixdSrc::spec_from_bits(b).wf(),
            SixdSrc::spec_from_bits(b).spec_to_bits() == b,
    {
        assert((b & 0x01) < 2
            && ((b >> 1) & 0x01) < 2
            && ((b >> 2) & 0x01) < 2
            && ((b >> 3) & 0x01) < 2
            && ((b >> 4) & 0x01) < 2
            && ((b >> 5) & 0x01) < 2
            && ((b >> 6) & 0x01) < 2
            && (b >> 7) < 2
            && (((b & 0x01) & 0x01) |
                ((((b >> 1) & 0x01) & 0x01) << 1) |
                ((((b >> 2) & 0x01) & 0x01) << 2) |
                ((((b >> 3) & 0x01) & 0x01) << 3) |
                ((((b >> 4) & 0x01) & 0x01) << 4) |
                ((((b >> 5) & 0x01) & 0x01) << 5) |
                ((((b >> 6) & 0x01) & 0x01) << 6) |
                (((b >> 7) & 0x01) << 7)) == b) by (bit_vector);
    }
}

/// All-interrupt source register: a summary of every event flag.
#[derive(Clone, Copy, Debug, PartialEq, Eq, Structural)]
pub struct AllIntSrc {
    /// Free-fall event detected (bit 0).
    pub ff_ia: u8,
    /// Wake-up event detected (bit 1).
    pub wu_ia: u8,
    /// Single-tap event detected (bit 2).
    pub single_tap: u8,
    /// Double-tap event detected (bit 3).
    pub double_tap: u8,
    /// 6D orientation-change event detected (bit 4).
    pub six_d_ia: u8,
    /// Sleep-change event detected (bit 5).
    pub sleep_change_ia: u8,
    /// Reserved bits (bits 6-7).
    pub not_used_01: u8,
}

impl AllIntSrc {
    /// Each field fits the width of its bit span.
    pub open spec fn wf(self) -> bool {
        self.ff_ia < 2
        && self.wu_ia < 2
        && self.single_tap < 2
        && self.double_tap < 2
        && self.six_d_ia < 2
        && self.sleep_change_ia < 2
        && self.not_used_01 < 4
    }

    /// The record held in a register byte.
    pub open spec fn spec_from_bits(b: u8) -> AllIntSrc {
        AllIntSrc {
            ff_ia: b & 0x01,
            wu_ia: (b >> 1) & 0x01,
            single_tap: (b >> 2) & 0x01,
            double_tap: (b >> 3) & 0x01,
            six_d_ia: (b >> 4) & 0x01,
            sleep_change_ia: (b >> 5) & 0x01,
            not_used_01: b >> 6,
        }
    }

    /// The register byte encoding the record; every field is truncated
    /// to the width of its bit span.
    pub open spec fn spec_to_bits(self) -> u8 {
        (self.ff_ia & 0x01) |
            ((self.wu_ia & 0x01) << 1) |
            ((self.single_tap & 0x01) << 2) |
            ((self.double_tap & 0x01) << 3) |
            ((self.six_d_ia & 0x01) << 4) |
            ((self.sleep_change_ia & 0x01) << 5) |
            ((self.not_used_01 & 0x03) << 6)
    }

    /// Decode a register byte.
    pub fn from_bits(b: u8) -> (r: AllIntSrc)
        ensures
            r == AllIntSrc::spec_from_bits(b),
            r.wf(),
    {
        proof {
            AllIntSrc::lemma_bits_roundtrip(b);
        }
        AllIntSrc {
            ff_ia: b & 0x01,
            wu_ia: (b >> 1) & 0x01,
            single_tap: (b >> 2) & 0x01,
            double_tap: (b >> 3) & 0x01,
            six_d_ia: (b >> 4) & 0x01,
            sleep_change_ia: (b >> 5) & 0x01,
            not_used_01: b >> 6,
        }
    }

    /// Encode the record into a register byte.
    pub fn to_bits(self) -> (b: u8)
        ensures
            b == self.spec_to_bits(),
    {
        (self.ff_ia & 0x01) |
            ((self.wu_ia & 0x01) << 1) |
            ((self.single_tap & 0x01) << 2) |
            ((self.double_tap & 0x01) << 3) |
            ((self.six_d_ia & 0x01) << 4) |
            ((self.sleep_change_ia & 0x01) << 5) |
            ((self.not_used_01 & 0x03) << 6)
    }

    /// Decoding yields a well-formed record, and encoding it again
    /// restores the exact byte: a read-modify-write that changes no
    /// field writes back precisely what it read.
    pub proof fn lemma_bits_roundtrip(b: u8)
        ensures
            AllIntSrc::spec_from_bits(b).wf(),
            AllIntSrc::spec_from_bits(b).spec_to_bits() == b,
    {
        assert((b & 0x01) < 2
            && ((b >> 1) & 0x01) < 2
            && ((b >> 2) & 0x01) < 2
            && ((b >> 3) & 0x01) < 2
            && ((b >> 4) & 0x01) < 2
            && ((b >> 5) & 0x01) < 2
            && (b >> 6) < 4
            && (((b & 0x01) & 0x01) |
                ((((b >> 1) & 0x01) & 0x01) << 1) |
                ((((b >> 2) & 0x01) & 0x01) << 2) |
                ((((b >> 3) & 0x01) & 0x01) << 3) |
                ((((b >> 4) & 0x01) & 0x01) << 4) |
                ((((b >> 5) & 0x01) & 0x01) << 5) |
                (((b >> 6) & 0x03) << 6)) == b) by (bit_vector);
    }
}

/// Every status and event-source register of the device, read in one call.
#[derive(Clone, Copy, Debug, PartialEq, Eq, Structural)]
pub struct AllSources {
    /// Status duplicate register.
    pub status_dup: StatusDup,
    /// Wake-up source register.
    pub wake_up_src: WakeUpSrc,
    /// Tap source register.
    pub tap_src: TapSrc,
    /// 6D source register.
    pub sixd_src: SixdSrc,
    /// All-interrupt source register.
    pub all_int_src: AllIntSrc,
}

} // verus!
