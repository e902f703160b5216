//! Control registers 1 through 7.
//!
//! Each register is modelled as a record of its bit fields, one integer per
//! field, together with the exact encoding to and from the register byte.
//! The encoding truncates every field to the width of its span, so an
//! encoded byte can never spill into a neighbouring field.

use vstd::prelude::*;

verus! {

/// Control register 1: low-power mode, operating mode and output data rate.
#[derive(Clone, Copy, Debug, PartialEq, Eq, Structural)]
pub struct Ctrl1 {
    /// Low-power mode selection (bits 0-1).
    pub lp_mode: u8,
    /// Operating-mode selection (bits 2-3).
    pub mode: u8,
    /// Output-data-rate selection (bits 4-7).
    pub odr: u8,
}

impl Ctrl1 {
    /// Each field fits the width of its bit span.
    pub open spec fn wf(self) -> bool {
        self.lp_mode < 4
        && self.mode < 4
        && self.odr < 16
    }

    /// The record held in a register byte.
    pub open spec fn spec_from_bits(b: u8) -> Ctrl1 {
        Ctrl1 { lp_mode: b & 0x03, mode: (b >> 2) & 0x03, odr: b >> 4 }
    }

    /// The register byte encoding the record; every field is truncated
    /// to the width of its bit span.
    pub open spec fn spec_to_bits(self) -> u8 {
        (self.lp_mode & 0x03) | ((self.mode & 0x03) << 2) | ((self.odr & 0x0F) << 4)
    }

    /// Decode a register byte.
    pub fn from_bits(b: u8) -> (r: Ctrl1)
        ensures
            r == Ctrl1::spec_from_bits(b),
            r.wf(),
    {
        proof {
            Ctrl1::lemma_bits_roundtrip(b);
        }
        Ctrl1 { lp_mode: b & 0x03, mode: (b >> 2) & 0x03, odr: b >> 4 }
    }

    /// Encode the record into a register byte.
    pub fn to_bits(self) -> (b: u8)
        ensures
            b == self.spec_to_bits(),
    {
        (self.lp_mode & 0x03) | ((self.mode & 0x03) << 2) | ((self.odr & 0x0F) << 4)
    }

    /// Decoding yields a well-formed record, and encoding it again
    /// restores the exact byte: a read-modify-write that changes no
    /// field writes back precisely what it read.
    pub proof fn lemma_bits_roundtrip(b: u8)
        ensures
            Ctrl1::spec_from_bits(b).wf(),
            Ctrl1::spec_from_bits(b).spec_to_bits() == b,
    {
        assert((b & 0x03) < 4
            && ((b >> 2) & 0x03) < 4
            && (b >> 4) < 16
            && (((b & 0x03) & 0x03) |
                ((((b >> 2) & 0x03) & 0x03) << 2) |
                (((b >> 4) & 0x0F) << 4)) == b) by (bit_vector);
    }

    /// Encoding then decoding returns a well-formed record unchanged:
    /// each field lives in its own bit span, so no field can disturb
    /// another.
    pub proof fn lemma_fields_roundtrip(self)
        requires
            self.wf(),
        ensures
            Ctrl1::spec_from_bits(self.spec_to_bits()) == self,
    {
        let Ctrl1 { lp_mode: f0, mode: f1, odr: f2 } = self;
        let b: u8 = (f0 & 0x03) | ((f1 & 0x03) << 2) | ((f2 & 0x0F) << 4);
        assert((b & 0x03) == f0
            && ((b >> 2) & 0x03) == f1
            && (b >> 4) == f2) by (bit_vector)
            requires
                f0 < 4,
                f1 < 4,
                f2 < 16,
                b == (f0 & 0x03) | ((f1 & 0x03) << 2) | ((f2 & 0x0F) << 4),
        ;
        assert(Ctrl1::spec_from_bits(self.spec_to_bits()) == self);
    }
}

/// Control register 2: interface configuration, block data update, reset and boot.
#[derive(Clone, Copy, Debug, PartialEq, Eq, Structural)]
pub struct Ctrl2 {
    /// SPI serial interface mode: 0 = 4-wire, 1 = 3-wire (bit 0).
    pub sim: u8,
    /// I2C interface disable: 0 = enabled, 1 = disabled (bit 1).
    pub i2c_disable: u8,
    /// Register-address auto-increment on multi-byte access (bit 2).
    pub if_add_inc: u8,
    /// Block data update: 0 = continuous, 1 = wait for MSB and LSB reads (bit 3).
    pub bdu: u8,
    /// Disconnect the pull-up on the CS pin (bit 4).
    pub cs_pu_disc: u8,
    /// Reserved bit, preserved across writes (bit 5).
    pub not_used_01: u8,
    /// Software reset of the control registers (bit 6).
    pub soft_reset: u8,
    /// Reboot memory content, reloading trimming parameters (bit 7).
    pub boot: u8,
}

impl Ctrl2 {
    /// Each field fits the width of its bit span.
    pub open spec fn wf(self) -> bool {
        self.sim < 2
        && self.i2c_disable < 2
        && self.if_add_inc < 2
        && self.bdu < 2
        && self.cs_pu_disc < 2
        && self.not_used_01 < 2
        && self.soft_reset < 2
        && self.boot < 2
    }

    /// The record held in a register byte.
    pub open spec fn spec_from_bits(b: u8) -> Ctrl2 {
        Ctrl2 {
            sim: b & 0x01,
            i2c_disable: (b >> 1) & 0x01,
            if_add_inc: (b >> 2) & 0x01,
            bdu: (b >> 3) & 0x01,
            cs_pu_disc: (b >> 4) & 0x01,
            not_used_01: (b >> 5) & 0x01,
            soft_reset: (b >> 6) & 0x01,
            boot: b >> 7,
        }
    }

    /// The register byte encoding the record; every field is truncated
    /// to the width of its bit span.
    pub open spec fn spec_to_bits(self) -> u8 {
        (self.sim & 0x01) |
            ((self.i2c_disable & 0x01) << 1) |
            ((self.if_add_inc & 0x01) << 2) |
            ((self.bdu & 0x01) << 3) |
            ((self.cs_pu_disc & 0x01) << 4) |
            ((self.not_used_01 & 0x01) << 5) |
            ((self.soft_reset & 0x01) << 6) |
            ((self.boot & 0x01) << 7)
    }

    /// Decode a register byte.
    pub fn from_bits(b: u8) -> (r: Ctrl2)
        ensures
            r == Ctrl2::spec_from_bits(b),
            r.wf(),
    {
        proof {
            Ctrl2::lemma_bits_roundtrip(b);
        }
        Ctrl2 {
            sim: b & 0x01,
            i2c_disable: (b >> 1) & 0x01,
            if_add_inc: (b >> 2) & 0x01,
            bdu: (b >> 3) & 0x01,
            cs_pu_disc: (b >> 4) & 0x01,
            not_used_01: (b >> 5) & 0x01,
            soft_reset: (b >> 6) & 0x01,
            boot: b >> 7,
        }
    }

    /// Encode the record into a register byte.
    pub fn to_bits(self) -> (b: u8)
        ensures
            b == self.spec_to_bits(),
    {
        (self.sim & 0x01) |
            ((self.i2c_disable & 0x01) << 1) |
            ((self.if_add_inc & 0x01) << 2) |
            ((self.bdu & 0x01) << 3) |
            ((self.cs_pu_disc & 0x01) << 4) |
            ((self.not_used_01 & 0x01) << 5) |
            ((self.soft_reset & 0x01) << 6) |
            ((self.boot & 0x01) << 7)
    }

    /// Decoding yields a well-formed record, and encoding it again
    /// restores the exact byte: a read-modify-write that changes no
    /// field writes back precisely what it read.
    pub proof fn lemma_bits_roundtrip(b: u8)
        ensures
            Ctrl2::spec_from_bits(b).wf(),
            Ctrl2::spec_from_bits(b).spec_to_bits() == b,
    {
        assert((b & 0x01) < 2
            && ((b >> 1) & 0x01) < 2
            && ((b >> 2) & 0x01) < 2
            && ((b >> 3) & 0x01) < 2
            && ((b >> 4) & 0x01) < 2
            && ((b >> 5) & 0x01) < 2
            && ((b >> 6) & 0x01) < 2
            && (b >> 7) < 2
            && (((b & 0x01) & 0x01) |
                ((((b >> 1) & 0x01) & 0x01) << 1) |
                ((((b >> 2) & 0x01) & 0x01) << 2) |
                ((((b >> 3) & 0x01) & 0x01) << 3) |
                ((((b >> 4) & 0x01) & 0x01) << 4) |
                ((((b >> 5) & 0x01) & 0x01) << 5) |
                ((((b >> 6) & 0x01) & 0x01) << 6) |
                (((b >> 7) & 0x01) << 7)) == b) by (bit_vector);
    }

    /// Encoding then decoding returns a well-formed record unchanged:
    /// each field lives in its own bit span, so no field can disturb
    /// another.
    pub proof fn lemma_fields_roundtrip(self)
        requires
            self.wf(),
        ensures
            Ctrl2::spec_from_bits(self.spec_to_bits()) == self,
    {
        let Ctrl2 {
            sim: f0,
            i2c_disable: f1,
            if_add_inc: f2,
            bdu: f3,
            cs_pu_disc: f4,
            not_used_01: f5,
            soft_reset: f6,
            boot: f7,
        } = self;
        let b: u8 = (f0 & 0x01) |
            ((f1 & 0x01) << 1) |
            ((f2 & 0x01) << 2) |
            ((f3 & 0x01) << 3) |
            ((f4 & 0x01) << 4) |
            ((f5 & 0x01) << 5) |
            ((f6 & 0x01) << 6) |
            ((f7 & 0x01) << 7);
        assert((b & 0x01) == f0
            && ((b >> 1) & 0x01) == f1
            && ((b >> 2) & 0x01) == f2
            && ((b >> 3) & 0x01) == f3
            && ((b >> 4) & 0x01) == f4
            && ((b >> 5) & 0x01) == f5
            && ((b >> 6) & 0x01) == f6
            && (b >> 7) == f7) by (bit_vector)
            requires
                f0 < 2,
                f1 < 2,
                f2 < 2,
                f3 < 2,
                f4 < 2,
                f5 < 2,
                f6 < 2,
                f7 < 2,
                b == (f0 & 0x01) |
                    ((f1 & 0x01) << 1) |
                    ((f2 & 0x01) << 2) |
                    ((f3 & 0x01) << 3) |
                    ((f4 & 0x01) << 4) |
                    ((f5 & 0x01) << 5) |
                    ((f6 & 0x01) << 6) |
                    ((f7 & 0x01) << 7),
        ;
        assert(Ctrl2::spec_from_bits(self.spec_to_bits()) == self);
    }
}

/// Control register 3: single-conversion trigger, interrupt polarity, latching, pad type and self-test.
#[derive(Clone, Copy, Debug, PartialEq, Eq, Structural)]
pub struct Ctrl3 {
    /// Single data conversion on demand: trigger select and start (bits 0-1).
    pub slp_mode: u8,
    /// Reserved bit, preserved across writes (bit 2).
    pub not_used_01: u8,
    /// Interrupt active level: 0 = active high, 1 = active low (bit 3).
    pub h_lactive: u8,
    /// Latched interrupt: 0 = pulsed, 1 = latched (bit 4).
    pub lir: u8,
    /// Interrupt pad type: 0 = push-pull, 1 = open-drain (bit 5).
    pub pp_od: u8,
    /// Self-test mode selection (bits 6-7).
    pub st: u8,
}

impl Ctrl3 {
    /// Each field fits the width of its bit span.
    pub open spec fn wf(self) -> bool {
        self.slp_mode < 4
        && self.not_used_01 < 2
        && self.h_lactive < 2
        && self.lir < 2
        && self.pp_od < 2
        && self.st < 4
    }

    /// The record held in a register byte.
    pub open spec fn spec_from_bits(b: u8) -> Ctrl3 {
        Ctrl3 {
            slp_mode: b & 0x03,
            not_used_01: (b >> 2) & 0x01,
            h_lactive: (b >> 3) & 0x01,
            lir: (b >> 4) & 0x01,
            pp_od: (b >> 5) & 0x01,
            st: b >> 6,
        }
    }

    /// The register byte encoding the record; every field is truncated
    /// to the width of its bit span.
    pub open spec fn spec_to_bits(self) -> u8 {
        (self.slp_mode & 0x03) |
            ((self.not_used_01 & 0x01) << 2) |
            ((self.h_lactive & 0x01) << 3) |
            ((self.lir & 0x01) << 4) |
            ((self.pp_od & 0x01) << 5) |
            ((self.st & 0x03) << 6)
    }

    /// Decode a register byte.
    pub fn from_bits(b: u8) -> (r: Ctrl3)
        ensures
            r == Ctrl3::spec_from_bits(b),
            r.wf(),
    {
        proof {
            Ctrl3::lemma_bits_roundtrip(b);
        }
        Ctrl3 {
            slp_mode: b & 0x03,
            not_used_01: (b >> 2) & 0x01,
            h_lactive: (b >> 3) & 0x01,
            lir: (b >> 4) & 0x01,
            pp_od: (b >> 5) & 0x01,
            st: b >> 6,
        }
    }

    /// Encode the record into a register byte.
    pub fn to_bits(self) -> (b: u8)
        ensures
            b == self.spec_to_bits(),
    {
        (self.slp_mode & 0x03) |
            ((self.not_used_01 & 0x01) << 2) |
            ((self.h_lactive & 0x01) << 3) |
            ((self.lir & 0x01) << 4) |
            ((self.pp_od & 0x01) << 5) |
            ((self.st & 0x03) << 6)
    }

    /// Decoding yields a well-formed record, and encoding it again
    /// restores the exact byte: a read-modify-write that changes no
    /// field writes back precisely what it read.
    pub proof fn lemma_bits_roundtrip(b: u8)
        ensures
            Ctrl3::spec_from_bits(b).wf(),
            Ctrl3::spec_from_bits(b).spec_to_bits() == b,
    {
        assert((b & 0x03) < 4
            && ((b >> 2) & 0x01) < 2
            && ((b >> 3) & 0x01) < 2
            && ((b >> 4) & 0x01) < 2
            && ((b >> 5) & 0x01) < 2
            && (b >> 6) < 4
            && (((b & 0x03) & 0x03) |
                ((((b >> 2) & 0x01) & 0x01) << 2) |
                ((((b >> 3) & 0x01) & 0x01) << 3) |
                ((((b >> 4) & 0x01) & 0x01) << 4) |
                ((((b >> 5) & 0x01) & 0x01) << 5) |
                (((b >> 6) & 0x03) << 6)) == b) by (bit_vector);
    }

    /// Encoding then decoding returns a well-formed record unchanged:
    /// each field lives in its own bit span, so no field can disturb
    /// another.
    pub proof fn lemma_fields_roundtrip(self)
        requires
            self.wf(),
        ensures
            Ctrl3::spec_from_bits(self.spec_to_bits()) == self,
    {
        let Ctrl3 { slp_mode: f0, not_used_01: f1, h_lactive: f2, lir: f3, pp_od: f4, st: f5 } = self;
        let b: u8 = (f0 & 0x03) |
            ((f1 & 0x01) << 2) |
            ((f2 & 0x01) << 3) |
            ((f3 & 0x01) << 4) |
            ((f4 & 0x01) << 5) |
            ((f5 & 0x03) << 6);
        assert((b & 0x03) == f0
            && ((b >> 2) & 0x01) == f1
            && ((b >> 3) & 0x01) == f2
            && ((b >> 4) & 0x01) == f3
            && ((b >> 5) & 0x01) == f4
            && (b >> 6) == f5) by (bit_vector)
            requires
                f0 < 4,
                f1 < 2,
                f2 < 2,
                f3 < 2,
                f4 < 2,
                f5 < 4,
                b == (f0 & 0x03) |
                    ((f1 & 0x01) << 2) |
                    ((f2 & 0x01) << 3) |
                    ((f3 & 0x01) << 4) |
                    ((f4 & 0x01) << 5) |
                    ((f5 & 0x03) << 6),
        ;
        assert(Ctrl3::spec_from_bits(self.spec_to_bits()) == self);
    }
}

/// INT1 pad routing: one enable bit per interrupt signal routed to INT1.
#[derive(Clone, Copy, Debug, PartialEq, Eq, Structural)]
pub struct Ctrl4Int1PadCtrl {
    /// Data-ready interrupt routed to INT1 (bit 0).
    pub int1_drdy: u8,
    /// FIFO threshold interrupt routed to INT1 (bit 1).
    pub int1_fth: u8,
    /// FIFO full interrupt routed to INT1 (bit 2).
    pub int1_diff5: u8,
    /// Double-tap interrupt routed to INT1 (bit 3).
    pub int1_tap: u8,
    /// Free-fall interrupt routed to INT1 (bit 4).
    pub int1_ff: u8,
    /// Wake-up interrupt routed to INT1 (bit 5).
    pub int1_wu: u8,
    /// Single-tap interrupt routed to INT1 (bit 6).
    pub int1_single_tap: u8,
    /// 6D orientation interrupt routed to INT1 (bit 7).
    pub int1_6d: u8,
}

impl Ctrl4Int1PadCtrl {
    /// Each field fits the width of its bit span.
    pub open spec fn wf(self) -> bool {
        self.int1_drdy < 2
        && self.int1_fth < 2
        && self.int1_diff5 < 2
        && self.int1_tap < 2
        && self.int1_ff < 2
        && self.int1_wu < 2
        && self.int1_single_tap < 2
        && self.int1_6d < 2
    }

    /// The record held in a register byte.
    pub open spec fn spec_from_bits(b: u8) -> Ctrl4Int1PadCtrl {
        Ctrl4Int1PadCtrl {
            int1_drdy: b & 0x01,
            int1_fth: (b >> 1) & 0x01,
            int1_diff5: (b >> 2) & 0x01,
            int1_tap: (b >> 3) & 0x01,
            int1_ff: (b >> 4) & 0x01,
            int1_wu: (b >> 5) & 0x01,
            int1_single_tap: (b >> 6) & 0x01,
            int1_6d: b >> 7,
        }
    }

    /// The register byte encoding the record; every field is truncated
    /// to the width of its bit span.
    pub open spec fn spec_to_bits(self) -> u8 {
        (self.int1_drdy & 0x01) |
            ((self.int1_fth & 0x01) << 1) |
            ((self.int1_diff5 & 0x01) << 2) |
            ((self.int1_tap & 0x01) << 3) |
            ((self.int1_ff & 0x01) << 4) |
            ((self.int1_wu & 0x01) << 5) |
            ((self.int1_single_tap & 0x01) << 6) |
            ((self.int1_6d & 0x01) << 7)
    }

    /// Decode a register byte.
    pub fn from_bits(b: u8) -> (r: Ctrl4Int1PadCtrl)
        ensures
            r == Ctrl4Int1PadCtrl::spec_from_bits(b),
            r.wf(),
    {
        proof {
            Ctrl4Int1PadCtrl::lemma_bits_roundtrip(b);
        }
        Ctrl4Int1PadCtrl {
            int1_drdy: b & 0x01,
            int1_fth: (b >> 1) & 0x01,
            int1_diff5: (b >> 2) & 0x01,
            int1_tap: (b >> 3) & 0x01,
            int1_ff: (b >> 4) & 0x01,
            int1_wu: (b >> 5) & 0x01,
            int1_single_tap: (b >> 6) & 0x01,
            int1_6d: b >> 7,
        }
    }

    /// Encode the record into a register byte.
    pub fn to_bits(self) -> (b: u8)
        ensures
            b == self.spec_to_bits(),
    {
        (self.int1_drdy & 0x01) |
            ((self.int1_fth & 0x01) << 1) |
            ((self.int1_diff5 & 0x01) << 2) |
            ((self.int1_tap & 0x01) << 3) |
            ((self.int1_ff & 0x01) << 4) |
            ((self.int1_wu & 0x01) << 5) |
            ((self.int1_single_tap & 0x01) << 6) |
            ((self.int1_6d & 0x01) << 7)
    }

    /// Decoding yields a well-formed record, and encoding it again
    /// restores the exact byte: a read-modify-write that changes no
    /// field writes back precisely what it read.
    pub proof fn lemma_bits_roundtrip(b: u8)
        ensures
            Ctrl4Int1PadCtrl::spec_from_bits(b).wf(),
            Ctrl4Int1PadCtrl::spec_from_bits(b).spec_to_bits() == b,
    {
        assert((b & 0x01) < 2
            && ((b >> 1) & 0x01) < 2
            && ((b >> 2) & 0x01) < 2
            && ((b >> 3) & 0x01) < 2
            && ((b >> 4) & 0x01) < 2
            && ((b >> 5) & 0x01) < 2
            && ((b >> 6) & 0x01) < 2
            && (b >> 7) < 2
            && (((b & 0x01) & 0x01) |
                ((((b >> 1) & 0x01) & 0x01) << 1) |
                ((((b >> 2) & 0x01) & 0x01) << 2) |
                ((((b >> 3) & 0x01) & 0x01) << 3) |
                ((((b >> 4) & 0x01) & 0x01) << 4) |
                ((((b >> 5) & 0x01) & 0x01) << 5) |
                ((((b >> 6) & 0x01) & 0x01) << 6) |
                (((b >> 7) & 0x01) << 7)) == b) by (bit_vector);
    }

    /// Encoding then decoding returns a well-formed record unchanged:
    /// each field lives in its own bit span, so no field can disturb
    /// another.
    pub proof fn lemma_fields_roundtrip(self)
        requires
            self.wf(),
        ensures
            Ctrl4Int1PadCtrl::spec_from_bits(self.spec_to_bits()) == self,
    {
        let Ctrl4Int1PadCtrl {
            int1_drdy: f0,
            int1_fth: f1,
            int1_diff5: f2,
            int1_tap: f3,
            int1_ff: f4,
            int1_wu: f5,
            int1_single_tap: f6,
            int1_6d: f7,
        } = self;
        let b: u8 = (f0 & 0x01) |
            ((f1 & 0x01) << 1) |
            ((f2 & 0x01) << 2) |
            ((f3 & 0x01) << 3) |
            ((f4 & 0x01) << 4) |
            ((f5 & 0x01) << 5) |
            ((f6 & 0x01) << 6) |
            ((f7 & 0x01) << 7);
        assert((b & 0x01) == f0
            && ((b >> 1) & 0x01) == f1
            && ((b >> 2) & 0x01) == f2
            && ((b >> 3) & 0x01) == f3
            && ((b >> 4) & 0x01) == f4
            && ((b >> 5) & 0x01) == f5
            && ((b >> 6) & 0x01) == f6
            && (b >> 7) == f7) by (bit_vector)
            requires
                f0 < 2,
                f1 < 2,
                f2 < 2,
                f3 < 2,
                f4 < 2,
                f5 < 2,
                f6 < 2,
                f7 < 2,
                b == (f0 & 0x01) |
                    ((f1 & 0x01) << 1) |
                    ((f2 & 0x01) << 2) |
                    ((f3 & 0x01) << 3) |
                    ((f4 & 0x01) << 4) |
                    ((f5 & 0x01) << 5) |
                    ((f6 & 0x01) << 6) |
                    ((f7 & 0x01) << 7),
        ;
        assert(Ctrl4Int1PadCtrl::spec_from_bits(self.spec_to_bits()) == self);
    }
}

/// INT2 pad routing: one enable bit per interrupt signal routed to INT2.
#[derive(Clone, Copy, Debug, PartialEq, Eq, Structural)]
pub struct Ctrl5Int2PadCtrl {
    /// Data-ready interrupt routed to INT2 (bit 0).
    pub int2_drdy: u8,
    /// FIFO threshold interrupt routed to INT2 (bit 1).
    pub int2_fth: u8,
    /// FIFO full interrupt routed to INT2 (bit 2).
    pub int2_diff5: u8,
    /// FIFO overrun interrupt routed to INT2 (bit 3).
    pub int2_ovr: u8,
    /// Temperature data-ready interrupt routed to INT2 (bit 4).
    pub int2_drdy_t: u8,
    /// Boot status routed to INT2 (bit 5).
    pub int2_boot: u8,
    /// Sleep-change status routed to INT2 (bit 6).
    pub int2_sleep_chg: u8,
    /// Sleep-state status routed to INT2 (bit 7).
    pub int2_sleep_state: u8,
}

impl Ctrl5Int2PadCtrl {
    /// Each field fits the width of its bit span.
    pub open spec fn wf(self) -> bool {
        self.int2_drdy < 2
        && self.int2_fth < 2
        && self.int2_diff5 < 2
        && self.int2_ovr < 2
        && self.int2_drdy_t < 2
        && self.int2_boot < 2
        && self.int2_sleep_chg < 2
        && self.int2_sleep_state < 2
    }

    /// The record held in a register byte.
    pub open spec fn spec_from_bits(b: u8) -> Ctrl5Int2PadCtrl {
        Ctrl5Int2PadCtrl {
            int2_drdy: b & 0x01,
            int2_fth: (b >> 1) & 0x01,
            int2_diff5: (b >> 2) & 0x01,
            int2_ovr: (b >> 3) & 0x01,
            int2_drdy_t: (b >> 4) & 0x01,
            int2_boot: (b >> 5) & 0x01,
            int2_sleep_chg: (b >> 6) & 0x01,
            int2_sleep_state: b >> 7,
        }
    }

    /// The register byte encoding the record; every field is truncated
    /// to the width of its bit span.
    pub open spec fn spec_to_bits(self) -> u8 {
        (self.int2_drdy & 0x01) |
            ((self.int2_fth & 0x01) << 1) |
            ((self.int2_diff5 & 0x01) << 2) |
            ((self.int2_ovr & 0x01) << 3) |
            ((self.int2_drdy_t & 0x01) << 4) |
            ((self.int2_boot & 0x01) << 5) |
            ((self.int2_sleep_chg & 0x01) << 6) |
            ((self.int2_sleep_state & 0x01) << 7)
    }

    /// Decode a register byte.
    pub fn from_bits(b: u8) -> (r: Ctrl5Int2PadCtrl)
        ensures
            r == Ctrl5Int2PadCtrl::spec_from_bits(b),
            r.wf(),
    {
        proof {
            Ctrl5Int2PadCtrl::lemma_bits_roundtrip(b);
        }
        Ctrl5Int2PadCtrl {
            int2_drdy: b & 0x01,
            int2_fth: (b >> 1) & 0x01,
            int2_diff5: (b >> 2) & 0x01,
            int2_ovr: (b >> 3) & 0x01,
            int2_drdy_t: (b >> 4) & 0x01,
            int2_boot: (b >> 5) & 0x01,
            int2_sleep_chg: (b >> 6) & 0x01,
            int2_sleep_state: b >> 7,
        }
    }

    /// Encode the record into a register byte.
    pub fn to_bits(self) -> (b: u8)
        ensures
            b == self.spec_to_bits(),
    {
        (self.int2_drdy & 0x01) |
            ((self.int2_fth & 0x01) << 1) |
            ((self.int2_diff5 & 0x01) << 2) |
            ((self.int2_ovr & 0x01) << 3) |
            ((self.int2_drdy_t & 0x01) << 4) |
            ((self.int2_boot & 0x01) << 5) |
            ((self.int2_sleep_chg & 0x01) << 6) |
            ((self.int2_sleep_state & 0x01) << 7)
    }

    /// Decoding yields a well-formed record, and encoding it again
    /// restores the exact byte: a read-modify-write that changes no
    /// field writes back precisely what it read.
    pub proof fn lemma_bits_roundtrip(b: u8)
        ensures
            Ctrl5Int2PadCtrl::spec_from_bits(b).wf(),
            Ctrl5Int2PadCtrl::spec_from_bits(b).spec_to_bits() == b,
    {
        assert((b & 0x01) < 2
            && ((b >> 1) & 0x01) < 2
            && ((b >> 2) & 0x01) < 2
            && ((b >> 3) & 0x01) < 2
            && ((b >> 4) & 0x01) < 2
            && ((b >> 5) & 0x01) < 2
            && ((b >> 6) & 0x01) < 2
            && (b >> 7) < 2
            && (((b & 0x01) & 0x01) |
                ((((b >> 1) & 0x01) & 0x01) << 1) |
                ((((b >> 2) & 0x01) & 0x01) << 2) |
                ((((b >> 3) & 0x01) & 0x01) << 3) |
                ((((b >> 4) & 0x01) & 0x01) << 4) |
                ((((b >> 5) & 0x01) & 0x01) << 5) |
                ((((b >> 6) & 0x01) & 0x01) << 6) |
                (((b >> 7) & 0x01) << 7)) == b) by (bit_vector);
    }

    /// Encoding then decoding returns a well-formed record unchanged:
    /// each field lives in its own bit span, so no field can disturb
    /// another.
    pub proof fn lemma_fields_roundtrip(self)
        requires
            self.wf(),
        ensures
            Ctrl5Int2PadCtrl::spec_from_bits(self.spec_to_bits()) == self,
    {
        let Ctrl5Int2PadCtrl {
            int2_drdy: f0,
            int2_fth: f1,
            int2_diff5: f2,
            int2_ovr: f3,
            int2_drdy_t: f4,
            int2_boot: f5,
            int2_sleep_chg: f6,
            int2_sleep_state: f7,
        } = self;
        let b: u8 = (f0 & 0x01) |
            ((f1 & 0x01) << 1) |
            ((f2 & 0x01) << 2) |
            ((f3 & 0x01) << 3) |
            ((f4 & 0x01) << 4) |
            ((f5 & 0x01) << 5) |
            ((f6 & 0x01) << 6) |
            ((f7 & 0x01) << 7);
        assert((b & 0x01) == f0
            && ((b >> 1) & 0x01) == f1
            && ((b >> 2) & 0x01) == f2
            && ((b >> 3) & 0x01) == f3
            && ((b >> 4) & 0x01) == f4
            && ((b >> 5) & 0x01) == f5
            && ((b >> 6) & 0x01) == f6
            && (b >> 7) == f7) by (bit_vector)
            requires
                f0 < 2,
                f1 < 2,
                f2 < 2,
                f3 < 2,
                f4 < 2,
                f5 < 2,
                f6 < 2,
                f7 < 2,
                b == (f0 & 0x01) |
                    ((f1 & 0x01) << 1) |
                    ((f2 & 0x01) << 2) |
                    ((f3 & 0x01) << 3) |
                    ((f4 & 0x01) << 4) |
                    ((f5 & 0x01) << 5) |
                    ((f6 & 0x01) << 6) |
                    ((f7 & 0x01) << 7),
        ;
        assert(Ctrl5Int2PadCtrl::spec_from_bits(self.spec_to_bits()) == self);
    }
}

/// Control register 6: low-noise mode, filter path, full scale and bandwidth.
#[derive(Clone, Copy, Debug, PartialEq, Eq, Structural)]
pub struct Ctrl6 {
    /// Reserved bits, preserved across writes (bits 0-1).
    pub not_used_01: u8,
    /// Low-noise mode enable (bit 2).
    pub low_noise: u8,
    /// Filtered data selection: 0 = low-pass, 1 = high-pass (bit 3).
    pub fds: u8,
    /// Full-scale selection: 0 = +/-2 g up to 3 = +/-16 g (bits 4-5).
    pub fs: u8,
    /// Filter bandwidth selection, ODR/2 to ODR/20 (bits 6-7).
    pub bw_filt: u8,
}

impl Ctrl6 {
    /// Each field fits the width of its bit span.
    pub open spec fn wf(self) -> bool {
        self.not_used_01 < 4
        && self.low_noise < 2
        && self.fds < 2
        && self.fs < 4
        && self.bw_filt < 4
    }

    /// The record held in a register byte.
    pub open spec fn spec_from_bits(b: u8) -> Ctrl6 {
        Ctrl6 {
            not_used_01: b & 0x03,
            low_noise: (b >> 2) & 0x01,
            fds: (b >> 3) & 0x01,
            fs: (b >> 4) & 0x03,
            bw_filt: b >> 6,
        }
    }

    /// The register byte encoding the record; every field is truncated
    /// to the width of its bit span.
    pub open spec fn spec_to_bits(self) -> u8 {
        (self.not_used_01 & 0x03) |
            ((self.low_noise & 0x01) << 2) |
            ((self.fds & 0x01) << 3) |
            ((self.fs & 0x03) << 4) |
            ((self.bw_filt & 0x03) << 6)
    }

    /// Decode a register byte.
    pub fn from_bits(b: u8) -> (r: Ctrl6)
        ensures
            r == Ctrl6::spec_from_bits(b),
            r.wf(),
    {
        proof {
            Ctrl6::lemma_bits_roundtrip(b);
        }
        Ctrl6 {
            not_used_01: b & 0x03,
            low_noise: (b >> 2) & 0x01,
            fds: (b >> 3) & 0x01,
            fs: (b >> 4) & 0x03,
            bw_filt: b >> 6,
        }
    }

    /// Encode the record into a register byte.
    pub fn to_bits(self) -> (b: u8)
        ensures
            b == self.spec_to_bits(),
    {
        (self.not_used_01 & 0x03) |
            ((self.low_noise & 0x01) << 2) |
            ((self.fds & 0x01) << 3) |
            ((self.fs & 0x03) << 4) |
            ((self.bw_filt & 0x03) << 6)
    }

    /// Decoding yields a well-formed record, and encoding it again
    /// restores the exact byte: a read-modify-write that changes no
    /// field writes back precisely what it read.
    pub proof fn lemma_bits_roundtrip(b: u8)
        ensures
            Ctrl6::spec_from_bits(b).wf(),
            Ctrl6::spec_from_bits(b).spec_to_bits() == b,
    {
        assert((b & 0x03) < 4
            && ((b >> 2) & 0x01) < 2
            && ((b >> 3) & 0x01) < 2
            && ((b >> 4) & 0x03) < 4
            && (b >> 6) < 4
            && (((b & 0x03) & 0x03) |
                ((((b >> 2) & 0x01) & 0x01) << 2) |
                ((((b >> 3) & 0x01) & 0x01) << 3) |
                ((((b >> 4) & 0x03) & 0x03) << 4) |
                (((b >> 6) & 0x03) << 6)) == b) by (bit_vector);
    }

    /// Encoding then decoding returns a well-formed record unchanged:
    /// each field lives in its own bit span, so no field can disturb
    /// another.
    pub proof fn lemma_fields_roundtrip(self)
        requires
            self.wf(),
        ensures
            Ctrl6::spec_from_bits(self.spec_to_bits()) == self,
    {
        let Ctrl6 { not_used_01: f0, low_noise: f1, fds: f2, fs: f3, bw_filt: f4 } = self;
        let b: u8 = (f0 & 0x03) | ((f1 & 0x01) << 2) | ((f2 & 0x01) << 3) | ((f3 & 0x03) << 4) | ((f4 & 0x03) << 6);
        assert((b & 0x03) == f0
            && ((b >> 2) & 0x01) == f1
            && ((b >> 3) & 0x01) == f2
            && ((b >> 4) & 0x03) == f3
            && (b >> 6) == f4) by (bit_vector)
            requires
                f0 < 4,
                f1 < 2,
                f2 < 2,
                f3 < 4,
                f4 < 4,
                b == (f0 & 0x03) | ((f1 & 0x01) << 2) | ((f2 & 0x01) << 3) | ((f3 & 0x03) << 4) | ((f4 & 0x03) << 6),
        ;
        assert(Ctrl6::spec_from_bits(self.spec_to_bits()) == self);
    }
}

/// Control register 7: filter feeds, user offsets and interrupt enables.
#[derive(Clone, Copy, Debug, PartialEq, Eq, Structural)]
pub struct Ctrl7 {
    /// Low-pass data fed to the 6D function (bit 0).
    pub lpass_on6d: u8,
    /// High-pass filter reference mode enable (bit 1).
    pub hp_ref_mode: u8,
    /// User offset weight: 0 = 977 ug/LSB, 1 = 15.6 mg/LSB (bit 2).
    pub usr_off_w: u8,
    /// User offset applied to the wake-up function (bit 3).
    pub usr_off_on_wu: u8,
    /// User offset applied to the output data (bit 4).
    pub usr_off_on_out: u8,
    /// Master enable for the event interrupts (bit 5).
    pub interrupts_enable: u8,
    /// Route every INT2 signal onto INT1 as well (bit 6).
    pub int2_on_int1: u8,
    /// Data-ready interrupt mode: 0 = latched, 1 = pulsed (bit 7).
    pub drdy_pulsed: u8,
}

impl Ctrl7 {
    /// Each field fits the width of its bit span.
    pub open spec fn wf(self) -> bool {
        self.lpass_on6d < 2
        && self.hp_ref_mode < 2
        && self.usr_off_w < 2
        && self.usr_off_on_wu < 2
        && self.usr_off_on_out < 2
        && self.interrupts_enable < 2
        && self.int2_on_int1 < 2
        && self.drdy_pulsed < 2
    }

    /// The record held in a register byte.
    pub open spec fn spec_from_bits(b: u8) -> Ctrl7 {
        Ctrl7 {
            lpass_on6d: b & 0x01,
            hp_ref_mode: (b >> 1) & 0x01,
            usr_off_w: (b >> 2) & 0x01,
            usr_off_on_wu: (b >> 3) & 0x01,
            usr_off_on_out: (b >> 4) & 0x01,
            interrupts_enable: (b >> 5) & 0x01,
            int2_on_int1: (b >> 6) & 0x01,
            drdy_pulsed: b >> 7,
        }
    }

    /// The register byte encoding the record; every field is truncated
    /// to the width of its bit span.
    pub open spec fn spec_to_bits(self) -> u8 {
        (self.lpass_on6d & 0x01) |
            ((self.hp_ref_mode & 0x01) << 1) |
            ((self.usr_off_w & 0x01) << 2) |
            ((self.usr_off_on_wu & 0x01) << 3) |
            ((self.usr_off_on_out & 0x01) << 4) |
            ((self.interrupts_enable & 0x01) << 5) |
            ((self.int2_on_int1 & 0x01) << 6) |
            ((self.drdy_pulsed & 0x01) << 7)
    }

    /// Decode a register byte.
    pub fn from_bits(b: u8) -> (r: Ctrl7)
        ensures
            r == Ctrl7::spec_from_bits(b),
            r.wf(),
    {
        proof {
            Ctrl7::lemma_bits_roundtrip(b);
        }
        Ctrl7 {
            lpass_on6d: b & 0x01,
            hp_ref_mode: (b >> 1) & 0x01,
            usr_off_w: (b >> 2) & 0x01,
            usr_off_on_wu: (b >> 3) & 0x01,
            usr_off_on_out: (b >> 4) & 0x01,
            interrupts_enable: (b >> 5) & 0x01,
            int2_on_int1: (b >> 6) & 0x01,
            drdy_pulsed: b >> 7,
        }
    }

    /// Encode the record into a register byte.
    pub fn to_bits(self) -> (b: u8)
        ensures
            b == self.spec_to_bits(),
    {
        (self.lpass_on6d & 0x01) |
            ((self.hp_ref_mode & 0x01) << 1) |
            ((self.usr_off_w & 0x01) << 2) |
            ((self.usr_off_on_wu & 0x01) << 3) |
            ((self.usr_off_on_out & 0x01) << 4) |
            ((self.interrupts_enable & 0x01) << 5) |
            ((self.int2_on_int1 & 0x01) << 6) |
            ((self.drdy_pulsed & 0x01) << 7)
    }

    /// Decoding yields a well-formed record, and encoding it again
    /// restores the exact byte: a read-modify-write that changes no
    /// field writes back precisely what it read.
    pub proof fn lemma_bits_roundtrip(b: u8)
        ensures
            Ctrl7::spec_from_bits(b).wf(),
            Ctrl7::spec_from_bits(b).spec_to_bits() == b,
    {
        assert((b & 0x01) < 2
            && ((b >> 1) & 0x01) < 2
            && ((b >> 2) & 0x01) < 2
            && ((b >> 3) & 0x01) < 2
            && ((b >> 4) & 0x01) < 2
            && ((b >> 5) & 0x01) < 2
            && ((b >> 6) & 0x01) < 2
            && (b >> 7) < 2
            && (((b & 0x01) & 0x01) |
                ((((b >> 1) & 0x01) & 0x01) << 1) |
                ((((b >> 2) & 0x01) & 0x01) << 2) |
                ((((b >> 3) & 0x01) & 0x01) << 3) |
                ((((b >> 4) & 0x01) & 0x01) << 4) |
                ((((b >> 5) & 0x01) & 0x01) << 5) |
                ((((b >> 6) & 0x01) & 0x01) << 6) |
                (((b >> 7) & 0x01) << 7)) == b) by (bit_vector);
    }

    /// Encoding then decoding returns a well-formed record unchanged:
    /// each field lives in its own bit span, so no field can disturb
    /// another.
    pub proof fn lemma_fields_roundtrip(self)
        requires
            self.wf(),
        ensures
            Ctrl7::spec_from_bits(self.spec_to_bits()) == self,
    {
        let Ctrl7 {
            lpass_on6d: f0,
            hp_ref_mode: f1,
            usr_off_w: f2,
            usr_off_on_wu: f3,
            usr_off_on_out: f4,
            interrupts_enable: f5,
            int2_on_int1: f6,
            drdy_pulsed: f7,
        } = self;
        let b: u8 = (f0 & 0x01) |
            ((f1 & 0x01) << 1) |
            ((f2 & 0x01) << 2) |
            ((f3 & 0x01) << 3) |
            ((f4 & 0x01) << 4) |
            ((f5 & 0x01) << 5) |
            ((f6 & 0x01) << 6) |
            ((f7 & 0x01) << 7);
        assert((b & 0x01) == f0
            && ((b >> 1) & 0x01) == f1
            && ((b >> 2) & 0x01) == f2
            && ((b >> 3) & 0x01) == f3
            && ((b >> 4) & 0x01) == f4
            && ((b >> 5) & 0x01) == f5
            && ((b >> 6) & 0x01) == f6
            && (b >> 7) == f7) by (bit_vector)
            requires
                f0 < 2,
                f1 < 2,
                f2 < 2,
                f3 < 2,
                f4 < 2,
                f5 < 2,
                f6 < 2,
                f7 < 2,
                b == (f0 & 0x01) |
                    ((f1 & 0x01) << 1) |
                    ((f2 & 0x01) << 2) |
                    ((f3 & 0x01) << 3) |
                    ((f4 & 0x01) << 4) |
                    ((f5 & 0x01) << 5) |
                    ((f6 & 0x01) << 6) |
                    ((f7 & 0x01) << 7),
        ;
        assert(Ctrl7::spec_from_bits(self.spec_to_bits()) == self);
    }
}

} // verus!
