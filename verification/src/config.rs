//! Event-detection and FIFO configuration registers.
//!
//! Thresholds and durations for the wake-up, tap, 6D and free-fall engines,
//! and the FIFO watermark, mode and fill level.  Each register is modelled
//! as a record of its bit fields with the exact encoding to and from the
//! register byte.

use vstd::prelude::*;

verus! {

/// FIFO control register: watermark threshold and operating mode.
#[derive(Clone, Copy, Debug, PartialEq, Eq, Structural)]
pub struct FifoCtrl {
    /// FIFO watermark threshold (bits 0-4).
    pub fth: u8,
    /// FIFO mode selection (bits 5-7).
    pub fmode: u8,
}

impl FifoCtrl {
    /// Each field fits the width of its bit span.
    pub open spec fn wf(self) -> bool {
        self.fth < 32
        && self.fmode < 8
    }

    /// The record held in a register byte.
    pub open spec fn spec_from_bits(b: u8) -> FifoCtrl {
        FifoCtrl { fth: b & 0x1F, fmode: b >> 5 }
    }

    /// The register byte encoding the record; every field is truncated
    /// to the width of its bit span.
    pub open spec fn spec_to_bits(self) -> u8 {
        (self.fth & 0x1F) | ((self.fmode & 0x07) << 5)
    }

    /// Decode a register byte.
    pub fn from_bits(b: u8) -> (r: FifoCtrl)
        ensures
            r == FifoCtrl::spec_from_bits(b),
            r.wf(),
    {
        proof {
            FifoCtrl::lemma_bits_roundtrip(b);
        }
        FifoCtrl { fth: b & 0x1F, fmode: b >> 5 }
    }

    /// Encode the record into a register byte.
    pub fn to_bits(self) -> (b: u8)
        ensures
            b == self.spec_to_bits(),
    {
        (self.fth & 0x1F) | ((self.fmode & 0x07) << 5)
    }

    /// Decoding yields a well-formed record, and encoding it again
    /// restores the exact byte: a read-modify-write that changes no
    /// field writes back precisely what it read.
    pub proof fn lemma_bits_roundtrip(b: u8)
        ensures
            FifoCtrl::spec_from_bits(b).wf(),
            FifoCtrl::spec_from_bits(b).spec_to_bits() == b,
    {
        assert((b & 0x1F) < 32
            && (b >> 5) < 8
            && (((b & 0x1F) & 0x1F) | (((b >> 5) & 0x07) << 5)) == b) by (bit_vector);
    }

    /// Encoding then decoding returns a well-formed record unchanged:
    /// each field lives in its own bit span, so no field can disturb
    /// another.
    pub proof fn lemma_fields_roundtrip(self)
        requires
            self.wf(),
        ensures
            FifoCtrl::spec_from_bits(self.spec_to_bits()) == self,
    {
        let FifoCtrl { fth: f0, fmode: f1 } = self;
        let b: u8 = (f0 & 0x1F) | ((f1 & 0x07) << 5);
        assert((b & 0x1F) == f0
            && (b >> 5) == f1) by (bit_vector)
            requires
                f0 < 32,
                f1 < 8,
                b == (f0 & 0x1F) | ((f1 & 0x07) << 5),
        ;
        assert(FifoCtrl::spec_from_bits(self.spec_to_bits()) == self);
    }
}

/// FIFO samples register: fill level and status flags (read-only).
#[derive(Clone, Copy, Debug, PartialEq, Eq, Structural)]
pub struct FifoSamples {
    /// Number of unread samples stored in the FIFO (bits 0-5).
    pub diff: u8,
    /// FIFO overrun: a sample has been overwritten (bit 6).
    pub fifo_ovr: u8,
    /// FIFO filling has reached the watermark (bit 7).
    pub fifo_fth: u8,
}

impl FifoSamples {
    /// Each field fits the width of its bit span.
    pub open spec fn wf(self) -> bool {
        self.diff < 64
        && self.fifo_ovr < 2
        && self.fifo_fth < 2
    }

    /// The record held in a register byte.
    pub open spec fn spec_from_bits(b: u8) -> FifoSamples {
        FifoSamples { diff: b & 0x3F, fifo_ovr: (b >> 6) & 0x01, fifo_fth: b >> 7 }
    }

    /// The register byte encoding the record; every field is truncated
    /// to the width of its bit span.
    pub open spec fn spec_to_bits(self) -> u8 {
        (self.diff & 0x3F) | ((self.fifo_ovr & 0x01) << 6) | ((self.fifo_fth & 0x01) << 7)
    }

    /// Decode a register byte.
    pub fn from_bits(b: u8) -> (r: FifoSamples)
        ensures
            r == FifoSamples::spec_from_bits(b),
            r.wf(),
    {
        proof {
            FifoSamples::lemma_bits_roundtrip(b);
        }
        FifoSamples { diff: b & 0x3F, fifo_ovr: (b >> 6) & 0x01, fifo_fth: b >> 7 }
    }

    /// Encode the record into a register byte.
    pub fn to_bits(self) -> (b: u8)
        ensures
            b == self.spec_to_bits(),
    {
        (self.diff & 0x3F) | ((self.fifo_ovr & 0x01) << 6) | ((self.fifo_fth & 0x01) << 7)
    }

    /// Decoding yields a well-formed record, and encoding it again
    /// restores the exact byte: a read-modify-write that changes no
    /// field writes back precisely what it read.
    pub proof fn lemma_bits_roundtrip(b: u8)
        ensures
            FifoSamples::spec_from_bits(b).wf(),
            FifoSamples::spec_from_bits(b).spec_to_bits() == b,
    {
        assert((b & 0x3F) < 64
            && ((b >> 6) & 0x01) < 2
            && (b >> 7) < 2
            && (((b & 0x3F) & 0x3F) |
                ((((b >> 6) & 0x01) & 0x01) << 6) |
                (((b >> 7) & 0x01) << 7)) == b) by (bit_vector);
    }
}

/// Tap threshold for the X-axis, 6D threshold and 4D enable.
#[derive(Clone, Copy, Debug, PartialEq, Eq, Structural)]
pub struct TapThsX {
    /// Tap threshold on the X-axis (bits 0-4).
    pub tap_thsx: u8,
    /// Threshold for 4D/6D orientation detection (bits 5-6).
    pub six_d_ths: u8,
    /// 4D orientation detection enable (bit 7).
    pub four_d_en: u8,
}

impl TapThsX {
    /// Each field fits the width of its bit span.
    pub open spec fn wf(self) -> bool {
        self.tap_thsx < 32
        && self.six_d_ths < 4
        && self.four_d_en < 2
    }

    /// The record held in a register byte.
    pub open spec fn spec_from_bits(b: u8) -> TapThsX {
        TapThsX { tap_thsx: b & 0x1F, six_d_ths: (b >> 5) & 0x03, four_d_en: b >> 7 }
    }

    /// The register byte encoding the record; every field is truncated
    /// to the width of its bit span.
    pub open spec fn spec_to_bits(self) -> u8 {
        (self.tap_thsx & 0x1F) | ((self.six_d_ths & 0x03) << 5) | ((self.four_d_en & 0x01) << 7)
    }

    /// Decode a register byte.
    pub fn from_bits(b: u8) -> (r: TapThsX)
        ensures
            r == TapThsX::spec_from_bits(b),
            r.wf(),
    {
        proof {
            TapThsX::lemma_bits_roundtrip(b);
        }
        TapThsX { tap_thsx: b & 0x1F, six_d_ths: (b >> 5) & 0x03, four_d_en: b >> 7 }
    }

    /// Encode the record into a register byte.
    pub fn to_bits(self) -> (b: u8)
        ensures
            b == self.spec_to_bits(),
    {
        (self.tap_thsx & 0x1F) | ((self.six_d_ths & 0x03) << 5) | ((self.four_d_en & 0x01) << 7)
    }

    /// Decoding yields a well-formed record, and encoding it again
    /// restores the exact byte: a read-modify-write that changes no
    /// field writes back precisely what it read.
    pub proof fn lemma_bits_roundtrip(b: u8)
        ensures
            TapThsX::spec_from_bits(b).wf(),
            TapThsX::spec_from_bits(b).spec_to_bits() == b,
    {
        assert((b & 0x1F) < 32
            && ((b >> 5) & 0x03) < 4
            && (b >> 7) < 2
            && (((b & 0x1F) & 0x1F) |
                ((((b >> 5) & 0x03) & 0x03) << 5) |
                (((b >> 7) & 0x01) << 7)) == b) by (bit_vector);
    }

    /// Encoding then decoding returns a well-formed record unchanged:
    /// each field lives in its own bit span, so no field can disturb
    /// another.
    pub proof fn lemma_fields_roundtrip(self)
        requires
            self.wf(),
        ensures
            TapThsX::spec_from_bits(self.spec_to_bits()) == self,
    {
        let TapThsX { tap_thsx: f0, six_d_ths: f1, four_d_en: f2 } = self;
        let b: u8 = (f0 & 0x1F) | ((f1 & 0x03) << 5) | ((f2 & 0x01) << 7);
        assert((b & 0x1F) == f0
            && ((b >> 5) & 0x03) == f1
            && (b >> 7) == f2) by (bit_vector)
            requires
                f0 < 32,
                f1 < 4,
                f2 < 2,
                b == (f0 & 0x1F) | ((f1 & 0x03) << 5) | ((f2 & 0x01) << 7),
        ;
        assert(TapThsX::spec_from_bits(self.spec_to_bits()) == self);
    }
}

/// Tap threshold for the Y-axis and axis priority.
#[derive(Clone, Copy, Debug, PartialEq, Eq, Structural)]
pub struct TapThsY {
    /// Tap threshold on the Y-axis (bits 0-4).
    pub tap_thsy: u8,
    /// Axis priority for tap detection (bits 5-7).
    pub tap_prior: u8,
}

impl TapThsY {
    /// Each field fits the width of its bit span.
    pub open spec fn wf(self) -> bool {
        self.tap_thsy < 32
        && self.tap_prior < 8
    }

    /// The record held in a register byte.
    pub open spec fn spec_from_bits(b: u8) -> TapThsY {
        TapThsY { tap_thsy: b & 0x1F, tap_prior: b >> 5 }
    }

    /// The register byte encoding the record; every field is truncated
    /// to the width of its bit span.
    pub open spec fn spec_to_bits(self) -> u8 {
        (self.tap_thsy & 0x1F) | ((self.tap_prior & 0x07) << 5)
    }

    /// Decode a register byte.
    pub fn from_bits(b: u8) -> (r: TapThsY)
        ensures
            r == TapThsY::spec_from_bits(b),
            r.wf(),
    {
        proof {
            TapThsY::lemma_bits_roundtrip(b);
        }
        TapThsY { tap_thsy: b & 0x1F, tap_prior: b >> 5 }
    }

    /// Encode the record into a register byte.
    pub fn to_bits(self) -> (b: u8)
        ensures
            b == self.spec_to_bits(),
    {
        (self.tap_thsy & 0x1F) | ((self.tap_prior & 0x07) << 5)
    }

    /// Decoding yields a well-formed record, and encoding it again
    /// restores the exact byte: a read-modify-write that changes no
    /// field writes back precisely what it read.
    pub proof fn lemma_bits_roundtrip(b: u8)
        ensures
            TapThsY::spec_from_bits(b).wf(),
            TapThsY::spec_from_bits(b).spec_to_bits() == b,
    {
        assert((b & 0x1F) < 32
            && (b >> 5) < 8
            && (((b & 0x1F) & 0x1F) | (((b >> 5) & 0x07) << 5)) == b) by (bit_vector);
    }

    /// Encoding then decoding returns a well-formed record unchanged:
    /// each field lives in its own bit span, so no field can disturb
    /// another.
    pub proof fn lemma_fields_roundtrip(self)
        requires
            self.wf(),
        ensures
            TapThsY::spec_from_bits(self.spec_to_bits()) == self,
    {
        let TapThsY { tap_thsy: f0, tap_prior: f1 } = self;
        let b: u8 = (f0 & 0x1F) | ((f1 & 0x07) << 5);
        assert((b & 0x1F) == f0
            && (b >> 5) == f1) by (bit_vector)
            requires
                f0 < 32,
                f1 < 8,
                b == (f0 & 0x1F) | ((f1 & 0x07) << 5),
        ;
        assert(TapThsY::spec_from_bits(self.spec_to_bits()) == self);
    }
}

/// Tap threshold for the Z-axis and per-axis tap enables.
#[derive(Clone, Copy, Debug, PartialEq, Eq, Structural)]
pub struct TapThsZ {
    /// Tap threshold on the Z-axis (bits 0-4).
    pub tap_thsz: u8,
    /// Tap detection on the Z-axis enable (bit 5).
    pub tap_z_en: u8,
    /// Tap detection on the Y-axis enable (bit 6).
    pub tap_y_en: u8,
    /// Tap detection on the X-axis enable (bit 7).
    pub tap_x_en: u8,
}

impl TapThsZ {
    /// Each field fits the width of its bit span.
    pub open spec fn wf(self) -> bool {
        self.tap_thsz < 32
        && self.tap_z_en < 2
        && self.tap_y_en < 2
        && self.tap_x_en < 2
    }

    /// The record held in a register byte.
    pub open spec fn spec_from_bits(b: u8) -> TapThsZ {
        TapThsZ { tap_thsz: b & 0x1F, tap_z_en: (b >> 5) & 0x01, tap_y_en: (b >> 6) & 0x01, tap_x_en: b >> 7 }
    }

    /// The register byte encoding the record; every field is truncated
    /// to the width of its bit span.
    pub open spec fn spec_to_bits(self) -> u8 {
        (self.tap_thsz & 0x1F) |
            ((self.tap_z_en & 0x01) << 5) |
            ((self.tap_y_en & 0x01) << 6) |
            ((self.tap_x_en & 0x01) << 7)
    }

    /// Decode a register byte.
    pub fn from_bits(b: u8) -> (r: TapThsZ)
        ensures
            r == TapThsZ::spec_from_bits(b),
            r.wf(),
    {
        proof {
            TapThsZ::lemma_bits_roundtrip(b);
        }
        TapThsZ { tap_thsz: b & 0x1F, tap_z_en: (b >> 5) & 0x01, tap_y_en: (b >> 6) & 0x01, tap_x_en: b >> 7 }
    }

    /// Encode the record into a register byte.
    pub fn to_bits(self) -> (b: u8)
        ensures
            b == self.spec_to_bits(),
    {
        (self.tap_thsz & 0x1F) |
            ((self.tap_z_en & 0x01) << 5) |
            ((self.tap_y_en & 0x01) << 6) |
            ((self.tap_x_en & 0x01) << 7)
    }

    /// Decoding yields a well-formed record, and encoding it again
    /// restores the exact byte: a read-modify-write that changes no
    /// field writes back precisely what it read.
    pub proof fn lemma_bits_roundtrip(b: u8)
        ensures
            TapThsZ::spec_from_bits(b).wf(),
            TapThsZ::spec_from_bits(b).spec_to_bits() == b,
    {
        assert((b & 0x1F) < 32
            && ((b >> 5) & 0x01) < 2
            && ((b >> 6) & 0x01) < 2
            && (b >> 7) < 2
            && (((b & 0x1F) & 0x1F) |
                ((((b >> 5) & 0x01) & 0x01) << 5) |
                ((((b >> 6) & 0x01) & 0x01) << 6) |
                (((b >> 7) & 0x01) << 7)) == b) by (bit_vector);
    }

    /// Encoding then decoding returns a well-formed record unchanged:
    /// each field lives in its own bit span, so no field can disturb
    /// another.
    pub proof fn lemma_fields_roundtrip(self)
        requires
            self.wf(),
        ensures
            TapThsZ::spec_from_bits(self.spec_to_bits()) == self,
    {
        let TapThsZ { tap_thsz: f0, tap_z_en: f1, tap_y_en: f2, tap_x_en: f3 } = self;
        let b: u8 = (f0 & 0x1F) | ((f1 & 0x01) << 5) | ((f2 & 0x01) << 6) | ((f3 & 0x01) << 7);
        assert((b & 0x1F) == f0
            && ((b >> 5) & 0x01) == f1
            && ((b >> 6) & 0x01) == f2
            && (b >> 7) == f3) by (bit_vector)
            requires
                f0 < 32,
                f1 < 2,
                f2 < 2,
                f3 < 2,
                b == (f0 & 0x1F) | ((f1 & 0x01) << 5) | ((f2 & 0x01) << 6) | ((f3 & 0x01) << 7),
        ;
        assert(TapThsZ::spec_from_bits(self.spec_to_bits()) == self);
    }
}

/// Interrupt duration register: shock, quiet and latency windows for taps.
#[derive(Clone, Copy, Debug, PartialEq, Eq, Structural)]
pub struct IntDur {
    /// Maximum over-threshold time for a tap (bits 0-1).
    pub shock: u8,
    /// Quiet time after a tap (bits 2-3).
    pub quiet: u8,
    /// Maximum time between the taps of a double tap (bits 4-7).
    pub latency: u8,
}

impl IntDur {
    /// Each field fits the width of its bit span.
    pub open spec fn wf(self) -> bool {
        self.shock < 4
        && self.quiet < 4
        && self.latency < 16
    }

    /// The record held in a register byte.
    pub open spec fn spec_from_bits(b: u8) -> IntDur {
        IntDur { shock: b & 0x03, quiet: (b >> 2) & 0x03, latency: b >> 4 }
    }

    /// The register byte encoding the record; every field is truncated
    /// to the width of its bit span.
    pub open spec fn spec_to_bits(self) -> u8 {
        (self.shock & 0x03) | ((self.quiet & 0x03) << 2) | ((self.latency & 0x0F) << 4)
    }

    /// Decode a register byte.
    pub fn from_bits(b: u8) -> (r: IntDur)
        ensures
            r == IntDur::spec_from_bits(b),
            r.wf(),
    {
        proof {
            IntDur::lemma_bits_roundtrip(b);
        }
        IntDur { shock: b & 0x03, quiet: (b >> 2) & 0x03, latency: b >> 4 }
    }

    /// Encode the record into a register byte.
    pub fn to_bits(self) -> (b: u8)
        ensures
            b == self.spec_to_bits(),
    {
        (self.shock & 0x03) | ((self.quiet & 0x03) << 2) | ((self.latency & 0x0F) << 4)
    }

    /// Decoding yields a well-formed record, and encoding it again
    /// restores the exact byte: a read-modify-write that changes no
    /// field writes back precisely what it read.
    pub proof fn lemma_bits_roundtrip(b: u8)
        ensures
            IntDur::spec_from_bits(b).wf(),
            IntDur::spec_from_bits(b).spec_to_bits() == b,
    {
        assert((b & 0x03) < 4
            && ((b >> 2) & 0x03) < 4
            && (b >> 4) < 16
            && (((b & 0x03) & 0x03) |
                ((((b >> 2) & 0x03) & 0x03) << 2) |
                (((b >> 4) & 0x0F) << 4)) == b) by (bit_vector);
    }

    /// Encoding then decoding returns a well-formed record unchanged:
    /// each field lives in its own bit span, so no field can disturb
    /// another.
    pub proof fn lemma_fields_roundtrip(self)
        requires
            self.wf(),
        ensures
            IntDur::spec_from_bits(self.spec_to_bits()) == self,
    {
        let IntDur { shock: f0, quiet: f1, latency: f2 } = self;
        let b: u8 = (f0 & 0x03) | ((f1 & 0x03) << 2) | ((f2 & 0x0F) << 4);
        assert((b & 0x03) == f0
            && ((b >> 2) & 0x03) == f1
            && (b >> 4) == f2) by (bit_vector)
            requires
                f0 < 4,
                f1 < 4,
                f2 < 16,
                b == (f0 & 0x03) | ((f1 & 0x03) << 2) | ((f2 & 0x0F) << 4),
        ;
        assert(IntDur::spec_from_bits(self.spec_to_bits()) == self);
    }
}

/// Wake-up threshold register, sleep enable and tap-mode select.
#[derive(Clone, Copy, Debug, PartialEq, Eq, Structural)]
pub struct WakeUpThs {
    /// Wake-up threshold, 1 LSB = full scale / 64 (bits 0-5).
    pub wk_ths: u8,
    /// Sleep (activity/inactivity) detection enable (bit 6).
    pub sleep_on: u8,
    /// Tap mode: 0 = single only, 1 = single and double (bit 7).
    pub single_double_tap: u8,
}

impl WakeUpThs {
    /// Each field fits the width of its bit span.
    pub open spec fn wf(self) -> bool {
        self.wk_ths < 64
        && self.sleep_on < 2
        && self.single_double_tap < 2
    }

    /// The record held in a register byte.
    pub open spec fn spec_from_bits(b: u8) -> WakeUpThs {
        WakeUpThs { wk_ths: b & 0x3F, sleep_on: (b >> 6) & 0x01, single_double_tap: b >> 7 }
    }

    /// The register byte encoding the record; every field is truncated
    /// to the width of its bit span.
    pub open spec fn spec_to_bits(self) -> u8 {
        (self.wk_ths & 0x3F) | ((self.sleep_on & 0x01) << 6) | ((self.single_double_tap & 0x01) << 7)
    }

    /// Decode a register byte.
    pub fn from_bits(b: u8) -> (r: WakeUpThs)
        ensures
            r == WakeUpThs::spec_from_bits(b),
            r.wf(),
    {
        proof {
            WakeUpThs::lemma_bits_roundtrip(b);
        }
        WakeUpThs { wk_ths: b & 0x3F, sleep_on: (b >> 6) & 0x01, single_double_tap: b >> 7 }
    }

    /// Encode the record into a register byte.
    pub fn to_bits(self) -> (b: u8)
        ensures
            b == self.spec_to_bits(),
    {
        (self.wk_ths & 0x3F) | ((self.sleep_on & 0x01) << 6) | ((self.single_double_tap & 0x01) << 7)
    }

    /// Decoding yields a well-formed record, and encoding it again
    /// restores the exact byte: a read-modify-write that changes no
    /// field writes back precisely what it read.
    pub proof fn lemma_bits_roundtrip(b: u8)
        ensures
            WakeUpThs::spec_from_bits(b).wf(),
            WakeUpThs::spec_from_bits(b).spec_to_bits() == b,
    {
        assert((b & 0x3F) < 64
            && ((b >> 6) & 0x01) < 2
            && (b >> 7) < 2
            && (((b & 0x3F) & 0x3F) |
                ((((b >> 6) & 0x01) & 0x01) << 6) |
                (((b >> 7) & 0x01) << 7)) == b) by (bit_vector);
    }

    /// Encoding then decoding returns a well-formed record unchanged:
    /// each field lives in its own bit span, so no field can disturb
    /// another.
    pub proof fn lemma_fields_roundtrip(self)
        requires
            self.wf(),
        ensures
            WakeUpThs::spec_from_bits(self.spec_to_bits()) == self,
    {
        let WakeUpThs { wk_ths: f0, sleep_on: f1, single_double_tap: f2 } = self;
        let b: u8 = (f0 & 0x3F) | ((f1 & 0x01) << 6) | ((f2 & 0x01) << 7);
        assert((b & 0x3F) == f0
            && ((b >> 6) & 0x01) == f1
            && (b >> 7) == f2) by (bit_vector)
            requires
                f0 < 64,
                f1 < 2,
                f2 < 2,
                b == (f0 & 0x3F) | ((f1 & 0x01) << 6) | ((f2 & 0x01) << 7),
        ;
        assert(WakeUpThs::spec_from_bits(self.spec_to_bits()) == self);
    }
}

/// Wake-up duration register, stationary enable and free-fall duration high bit.
#[derive(Clone, Copy, Debug, PartialEq, Eq, Structural)]
pub struct WakeUpDur {
    /// Duration to enter sleep, 1 LSB = 512 / ODR (bits 0-3).
    pub sleep_dur: u8,
    /// Stationary/motion detection enable (bit 4).
    pub stationary: u8,
    /// Wake-up duration, 1 LSB = 1 / ODR (bits 5-6).
    pub wake_dur: u8,
    /// Most significant bit of the free-fall duration (bit 7).
    pub ff_dur: u8,
}

impl WakeUpDur {
    /// Each field fits the width of its bit span.
    pub open spec fn wf(self) -> bool {
        self.sleep_dur < 16
        && self.stationary < 2
        && self.wake_dur < 4
        && self.ff_dur < 2
    }

    /// The record held in a register byte.
    pub open spec fn spec_from_bits(b: u8) -> WakeUpDur {
        WakeUpDur { sleep_dur: b & 0x0F, stationary: (b >> 4) & 0x01, wake_dur: (b >> 5) & 0x03, ff_dur: b >> 7 }
    }

    /// The register byte encoding the record; every field is truncated
    /// to the width of its bit span.
    pub open spec fn spec_to_bits(self) -> u8 {
        (self.sleep_dur & 0x0F) |
            ((self.stationary & 0x01) << 4) |
            ((self.wake_dur & 0x03) << 5) |
            ((self.ff_dur & 0x01) << 7)
    }

    /// Decode a register byte.
    pub fn from_bits(b: u8) -> (r: WakeUpDur)
        ensures
            r == WakeUpDur::spec_from_bits(b),
            r.wf(),
    {
        proof {
            WakeUpDur::lemma_bits_roundtrip(b);
        }
        WakeUpDur { sleep_dur: b & 0x0F, stationary: (b >> 4) & 0x01, wake_dur: (b >> 5) & 0x03, ff_dur: b >> 7 }
    }

    /// Encode the record into a register byte.
    pub fn to_bits(self) -> (b: u8)
        ensures
            b == self.spec_to_bits(),
    {
        (self.sleep_dur & 0x0F) |
            ((self.stationary & 0x01) << 4) |
            ((self.wake_dur & 0x03) << 5) |
            ((self.ff_dur & 0x01) << 7)
    }

    /// Decoding yields a well-formed record, and encoding it again
    /// restores the exact byte: a read-modify-write that changes no
    /// field writes back precisely what it read.
    pub proof fn lemma_bits_roundtrip(b: u8)
        ensures
            WakeUpDur::spec_from_bits(b).wf(),
            WakeUpDur::spec_from_bits(b).spec_to_bits() == b,
    {
        assert((b & 0x0F) < 16
            && ((b >> 4) & 0x01) < 2
            && ((b >> 5) & 0x03) < 4
            && (b >> 7) < 2
            && (((b & 0x0F) & 0x0F) |
                ((((b >> 4) & 0x01) & 0x01) << 4) |
                ((((b >> 5) & 0x03) & 0x03) << 5) |
                (((b >> 7) & 0x01) << 7)) == b) by (bit_vector);
    }

    /// Encoding then decoding returns a well-formed record unchanged:
    /// each field lives in its own bit span, so no field can disturb
    /// another.
    pub proof fn lemma_fields_roundtrip(self)
        requires
            self.wf(),
        ensures
            WakeUpDur::spec_from_bits(self.spec_to_bits()) == self,
    {
        let WakeUpDur { sleep_dur: f0, stationary: f1, wake_dur: f2, ff_dur: f3 } = self;
        let b: u8 = (f0 & 0x0F) | ((f1 & 0x01) << 4) | ((f2 & 0x03) << 5) | ((f3 & 0x01) << 7);
        assert((b & 0x0F) == f0
            && ((b >> 4) & 0x01) == f1
            && ((b >> 5) & 0x03) == f2
            && (b >> 7) == f3) by (bit_vector)
            requires
                f0 < 16,
                f1 < 2,
                f2 < 4,
                f3 < 2,
                b == (f0 & 0x0F) | ((f1 & 0x01) << 4) | ((f2 & 0x03) << 5) | ((f3 & 0x01) << 7),
        ;
        assert(WakeUpDur::spec_from_bits(self.spec_to_bits()) == self);
    }
}

/// Free-fall register: threshold and the low bits of the duration.
#[derive(Clone, Copy, Debug, PartialEq, Eq, Structural)]
pub struct FreeFall {
    /// Free-fall threshold selection (bits 0-2).
    pub ff_ths: u8,
    /// Low five bits of the free-fall duration (bits 3-7).
    pub ff_dur: u8,
}

impl FreeFall {
    /// Each field fits the width of its bit span.
    pub open spec fn wf(self) -> bool {
        self.ff_ths < 8
        && self.ff_dur < 32
    }

    /// The record held in a register byte.
    pub open spec fn spec_from_bits(b: u8) -> FreeFall {
        FreeFall { ff_ths: b & 0x07, ff_dur: b >> 3 }
    }

    /// The register byte encoding the record; every field is truncated
    /// to the width of its bit span.
    pub open spec fn spec_to_bits(self) -> u8 {
        (self.ff_ths & 0x07) | ((self.ff_dur & 0x1F) << 3)
    }

    /// Decode a register byte.
    pub fn from_bits(b: u8) -> (r: FreeFall)
        ensures
            r == FreeFall::spec_from_bits(b),
            r.wf(),
    {
        proof {
            FreeFall::lemma_bits_roundtrip(b);
        }
        FreeFall { ff_ths: b & 0x07, ff_dur: b >> 3 }
    }

    /// Encode the record into a register byte.
    pub fn to_bits(self) -> (b: u8)
        ensures
            b == self.spec_to_bits(),
    {
        (self.ff_ths & 0x07) | ((self.ff_dur & 0x1F) << 3)
    }

    /// Decoding yields a well-formed record, and encoding it again
    /// restores the exact byte: a read-modify-write that changes no
    /// field writes back precisely what it read.
    pub proof fn lemma_bits_roundtrip(b: u8)
        ensures
            FreeFall::spec_from_bits(b).wf(),
            FreeFall::spec_from_bits(b).spec_to_bits() == b,
    {
        assert((b & 0x07) < 8
            && (b >> 3) < 32
            && (((b & 0x07) & 0x07) | (((b >> 3) & 0x1F) << 3)) == b) by (bit_vector);
    }

    /// Encoding then decoding returns a well-formed record unchanged:
    /// each field lives in its own bit span, so no field can disturb
    /// another.
    pub proof fn lemma_fields_roundtrip(self)
        requires
            self.wf(),
        ensures
            FreeFall::spec_from_bits(self.spec_to_bits()) == self,
    {
        let FreeFall { ff_ths: f0, ff_dur: f1 } = self;
        let b: u8 = (f0 & 0x07) | ((f1 & 0x1F) << 3);
        assert((b & 0x07) == f0
            && (b >> 3) == f1) by (bit_vector)
            requires
                f0 < 8,
                f1 < 32,
                b == (f0 & 0x07) | ((f1 & 0x1F) << 3),
        ;
        assert(FreeFall::spec_from_bits(self.spec_to_bits()) == self);
    }
}

} // verus!
