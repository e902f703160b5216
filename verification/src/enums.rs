//! Single-register configuration enumerations.
//!
//! Each enumeration names the documented values of one register field.  A
//! variant encodes to its register code; a code decodes to the named variant
//! it belongs to, and a reserved (undocumented) code decodes to the default
//! variant rather than failing, since hardware may report such patterns.

use vstd::prelude::*;

verus! {

/// Accelerometer full-scale selection, stored in control register 6.
#[derive(Clone, Copy, Debug, PartialEq, Eq, Structural)]
pub enum Fs {
    /// +/-2 g full-scale range (default).
    _2g,
    /// +/-4 g full-scale range.
    _4g,
    /// +/-8 g full-scale range.
    _8g,
    /// +/-16 g full-scale range.
    _16g,
}

impl Fs {
    /// The register encoding of the variant.
    pub open spec fn spec_code(self) -> u8 {
        match self {
            Fs::_2g => 0x00,
            Fs::_4g => 0x01,
            Fs::_8g => 0x02,
            Fs::_16g => 0x03,
        }
    }

    /// The register encoding of the variant.
    pub fn code(self) -> (r: u8)
        ensures
            r == self.spec_code(),
    {
        match self {
            Fs::_2g => 0x00,
            Fs::_4g => 0x01,
            Fs::_8g => 0x02,
            Fs::_16g => 0x03,
        }
    }

    /// The code is one that names a variant.
    pub open spec fn spec_code_is_named(c: u8) -> bool {
        c == 0x00 || c == 0x01 || c == 0x02 || c == 0x03
    }

    /// The variant a register code decodes to: the named variant with
    /// that code, or `Fs::_2g` where the device reports a
    /// reserved pattern.
    pub open spec fn spec_from_code(c: u8) -> Fs {
        if c == 0x01 {
            Fs::_4g
        } else if c == 0x02 {
            Fs::_8g
        } else if c == 0x03 {
            Fs::_16g
        } else {
            Fs::_2g
        }
    }

    /// Decode a register code.
    pub fn from_code(c: u8) -> (r: Fs)
        ensures
            r == Fs::spec_from_code(c),
    {
        if c == 0x01 {
            Fs::_4g
        } else if c == 0x02 {
            Fs::_8g
        } else if c == 0x03 {
            Fs::_16g
        } else {
            Fs::_2g
        }
    }

    /// Decoding an encoded variant restores the variant.
    pub proof fn lemma_code_roundtrip(self)
        ensures
            Fs::spec_from_code(self.spec_code()) == self,
    {
    }

    /// A reserved pattern decodes to the default variant, never to an
    /// error: hardware may legitimately report undocumented codes.
    pub proof fn lemma_reserved_defaults(c: u8)
        ensures
            !Fs::spec_code_is_named(c) ==> Fs::spec_from_code(c) == Fs::_2g,
    {
    }
}

/// Weight of the user offset registers, stored in control register 7.
#[derive(Clone, Copy, Debug, PartialEq, Eq, Structural)]
pub enum UsrOffW {
    /// 977 micro-g per LSB (default).
    _977ugLsb,
    /// 15.6 mg per LSB.
    _15_6mgLsb,
}

impl UsrOffW {
    /// The register encoding of the variant.
    pub open spec fn spec_code(self) -> u8 {
        match self {
            UsrOffW::_977ugLsb => 0x00,
            UsrOffW::_15_6mgLsb => 0x01,
        }
    }

    /// The register encoding of the variant.
    pub fn code(self) -> (r: u8)
        ensures
            r == self.spec_code(),
    {
        match self {
            UsrOffW::_977ugLsb => 0x00,
            UsrOffW::_15_6mgLsb => 0x01,
        }
    }

    /// The code is one that names a variant.
    pub open spec fn spec_code_is_named(c: u8) -> bool {
        c == 0x00 || c == 0x01
    }

    /// The variant a register code decodes to: the named variant with
    /// that code, or `UsrOffW::_977ugLsb` where the device reports a
    /// reserved pattern.
    pub open spec fn spec_from_code(c: u8) -> UsrOffW {
        if c == 0x01 {
            UsrOffW::_15_6mgLsb
        } else {
            UsrOffW::_977ugLsb
        }
    }

    /// Decode a register code.
    pub fn from_code(c: u8) -> (r: UsrOffW)
        ensures
            r == UsrOffW::spec_from_code(c),
    {
        if c == 0x01 {
            UsrOffW::_15_6mgLsb
        } else {
            UsrOffW::_977ugLsb
        }
    }

    /// Decoding an encoded variant restores the variant.
    pub proof fn lemma_code_roundtrip(self)
        ensures
            UsrOffW::spec_from_code(self.spec_code()) == self,
    {
    }

    /// A reserved pattern decodes to the default variant, never to an
    /// error: hardware may legitimately report undocumented codes.
    pub proof fn lemma_reserved_defaults(c: u8)
        ensures
            !UsrOffW::spec_code_is_named(c) ==> UsrOffW::spec_from_code(c) == UsrOffW::_977ugLsb,
    {
    }
}

/// Self-test mode, stored in control register 3.
#[derive(Clone, Copy, Debug, PartialEq, Eq, Structural)]
pub enum St {
    /// Self-test disabled (default).
    Disable,
    /// Positive-sign self-test.
    Positive,
    /// Negative-sign self-test.
    Negative,
}

impl St {
    /// The register encoding of the variant.
    pub open spec fn spec_code(self) -> u8 {
        match self {
            St::Disable => 0x00,
            St::Positive => 0x01,
            St::Negative => 0x02,
        }
    }

    /// The register encoding of the variant.
    pub fn code(self) -> (r: u8)
        ensures
            r == self.spec_code(),
    {
        match self {
            St::Disable => 0x00,
            St::Positive => 0x01,
            St::Negative => 0x02,
        }
    }

    /// The code is one that names a variant.
    pub open spec fn spec_code_is_named(c: u8) -> bool {
        c == 0x00 || c == 0x01 || c == 0x02
    }

    /// The variant a register code decodes to: the named variant with
    /// that code, or `St::Disable` where the device reports a
    /// reserved pattern.
    pub open spec fn spec_from_code(c: u8) -> St {
        if c == 0x01 {
            St::Positive
        } else if c == 0x02 {
            St::Negative
        } else {
            St::Disable
        }
    }

    /// Decode a register code.
    pub fn from_code(c: u8) -> (r: St)
        ensures
            r == St::spec_from_code(c),
    {
        if c == 0x01 {
            St::Positive
        } else if c == 0x02 {
            St::Negative
        } else {
            St::Disable
        }
    }

    /// Decoding an encoded variant restores the variant.
    pub proof fn lemma_code_roundtrip(self)
        ensures
            St::spec_from_code(self.spec_code()) == self,
    {
    }

    /// A reserved pattern decodes to the default variant, never to an
    /// error: hardware may legitimately report undocumented codes.
    pub proof fn lemma_reserved_defaults(c: u8)
        ensures
            !St::spec_code_is_named(c) ==> St::spec_from_code(c) == St::Disable,
    {
    }
}

/// Data-ready interrupt mode, stored in control register 7.
#[derive(Clone, Copy, Debug, PartialEq, Eq, Structural)]
pub enum DrdyPulsed {
    /// Latched mode (default).
    Latched,
    /// Pulsed mode.
    Pulsed,
}

impl DrdyPulsed {
    /// The register encoding of the variant.
    pub open spec fn spec_code(self) -> u8 {
        match self {
            DrdyPulsed::Latched => 0x00,
            DrdyPulsed::Pulsed => 0x01,
        }
    }

    /// The register encoding of the variant.
    pub fn code(self) -> (r: u8)
        ensures
            r == self.spec_code(),
    {
        match self {
            DrdyPulsed::Latched => 0x00,
            DrdyPulsed::Pulsed => 0x01,
        }
    }

    /// The code is one that names a variant.
    pub open spec fn spec_code_is_named(c: u8) -> bool {
        c == 0x00 || c == 0x01
    }

    /// The variant a register code decodes to: the named variant with
    /// that code, or `DrdyPulsed::Latched` where the device reports a
    /// reserved pattern.
    pub open spec fn spec_from_code(c: u8) -> DrdyPulsed {
        if c == 0x01 {
            DrdyPulsed::Pulsed
        } else {
            DrdyPulsed::Latched
        }
    }

    /// Decode a register code.
    pub fn from_code(c: u8) -> (r: DrdyPulsed)
        ensures
            r == DrdyPulsed::spec_from_code(c),
    {
        if c == 0x01 {
            DrdyPulsed::Pulsed
        } else {
            DrdyPulsed::Latched
        }
    }

    /// Decoding an encoded variant restores the variant.
    pub proof fn lemma_code_roundtrip(self)
        ensures
            DrdyPulsed::spec_from_code(self.spec_code()) == self,
    {
    }

    /// A reserved pattern decodes to the default variant, never to an
    /// error: hardware may legitimately report undocumented codes.
    pub proof fn lemma_reserved_defaults(c: u8)
        ensures
            !DrdyPulsed::spec_code_is_named(c) ==> DrdyPulsed::spec_from_code(c) == DrdyPulsed::Latched,
    {
    }
}

/// Filter cutoff frequency, stored in control register 6.
#[derive(Clone, Copy, Debug, PartialEq, Eq, Structural)]
pub enum BwFilt {
    /// Cutoff at ODR/2 (default).
    OdrDiv2,
    /// Cutoff at ODR/4.
    OdrDiv4,
    /// Cutoff at ODR/10.
    OdrDiv10,
    /// Cutoff at ODR/20.
    OdrDiv20,
}

impl BwFilt {
    /// The register encoding of the variant.
    pub open spec fn spec_code(self) -> u8 {
        match self {
            BwFilt::OdrDiv2 => 0x00,
            BwFilt::OdrDiv4 => 0x01,
            BwFilt::OdrDiv10 => 0x02,
            BwFilt::OdrDiv20 => 0x03,
        }
    }

    /// The register encoding of the variant.
    pub fn code(self) -> (r: u8)
        ensures
            r == self.spec_code(),
    {
        match self {
            BwFilt::OdrDiv2 => 0x00,
            BwFilt::OdrDiv4 => 0x01,
            BwFilt::OdrDiv10 => 0x02,
            BwFilt::OdrDiv20 => 0x03,
        }
    }

    /// The code is one that names a variant.
    pub open spec fn spec_code_is_named(c: u8) -> bool {
        c == 0x00 || c == 0x01 || c == 0x02 || c == 0x03
    }

    /// The variant a register code decodes to: the named variant with
    /// that code, or `BwFilt::OdrDiv2` where the device reports a
    /// reserved pattern.
    pub open spec fn spec_from_code(c: u8) -> BwFilt {
        if c == 0x01 {
            BwFilt::OdrDiv4
        } else if c == 0x02 {
            BwFilt::OdrDiv10
        } else if c == 0x03 {
            BwFilt::OdrDiv20
        } else {
            BwFilt::OdrDiv2
        }
    }

    /// Decode a register code.
    pub fn from_code(c: u8) -> (r: BwFilt)
        ensures
            r == BwFilt::spec_from_code(c),
    {
        if c == 0x01 {
            BwFilt::OdrDiv4
        } else if c == 0x02 {
            BwFilt::OdrDiv10
        } else if c == 0x03 {
            BwFilt::OdrDiv20
        } else {
            BwFilt::OdrDiv2
        }
    }

    /// Decoding an encoded variant restores the variant.
    pub proof fn lemma_code_roundtrip(self)
        ensures
            BwFilt::spec_from_code(self.spec_code()) == self,
    {
    }

    /// A reserved pattern decodes to the default variant, never to an
    /// error: hardware may legitimately report undocumented codes.
    pub proof fn lemma_reserved_defaults(c: u8)
        ensures
            !BwFilt::spec_code_is_named(c) ==> BwFilt::spec_from_code(c) == BwFilt::OdrDiv2,
    {
    }
}

/// SPI serial interface mode, stored in control register 2.
#[derive(Clone, Copy, Debug, PartialEq, Eq, Structural)]
pub enum Sim {
    /// 4-wire SPI mode (default).
    Spi4Wire,
    /// 3-wire SPI mode.
    Spi3Wire,
}

impl Sim {
    /// The register encoding of the variant.
    pub open spec fn spec_code(self) -> u8 {
        match self {
            Sim::Spi4Wire => 0x00,
            Sim::Spi3Wire => 0x01,
        }
    }

    /// The register encoding of the variant.
    pub fn code(self) -> (r: u8)
        ensures
            r == self.spec_code(),
    {
        match self {
            Sim::Spi4Wire => 0x00,
            Sim::Spi3Wire => 0x01,
        }
    }

    /// The code is one that names a variant.
    pub open spec fn spec_code_is_named(c: u8) -> bool {
        c == 0x00 || c == 0x01
    }

    /// The variant a register code decodes to: the named variant with
    /// that code, or `Sim::Spi4Wire` where the device reports a
    /// reserved pattern.
    pub open spec fn spec_from_code(c: u8) -> Sim {
        if c == 0x01 {
            Sim::Spi3Wire
        } else {
            Sim::Spi4Wire
        }
    }

    /// Decode a register code.
    pub fn from_code(c: u8) -> (r: Sim)
        ensures
            r == Sim::spec_from_code(c),
    {
        if c == 0x01 {
            Sim::Spi3Wire
        } else {
            Sim::Spi4Wire
        }
    }

    /// Decoding an encoded variant restores the variant.
    pub proof fn lemma_code_roundtrip(self)
        ensures
            Sim::spec_from_code(self.spec_code()) == self,
    {
    }

    /// A reserved pattern decodes to the default variant, never to an
    /// error: hardware may legitimately report undocumented codes.
    pub proof fn lemma_reserved_defaults(c: u8)
        ensures
            !Sim::spec_code_is_named(c) ==> Sim::spec_from_code(c) == Sim::Spi4Wire,
    {
    }
}

/// I2C interface state, stored in control register 2.
#[derive(Clone, Copy, Debug, PartialEq, Eq, Structural)]
pub enum I2cDisable {
    /// I2C interface enabled (default).
    I2cEnable,
    /// I2C interface disabled.
    I2cDisable,
}

impl I2cDisable {
    /// The register encoding of the variant.
    pub open spec fn spec_code(self) -> u8 {
        match self {
            I2cDisable::I2cEnable => 0x00,
            I2cDisable::I2cDisable => 0x01,
        }
    }

    /// The register encoding of the variant.
    pub fn code(self) -> (r: u8)
        ensures
            r == self.spec_code(),
    {
        match self {
            I2cDisable::I2cEnable => 0x00,
            I2cDisable::I2cDisable => 0x01,
        }
    }

    /// The code is one that names a variant.
    pub open spec fn spec_code_is_named(c: u8) -> bool {
        c == 0x00 || c == 0x01
    }

    /// The variant a register code decodes to: the named variant with
    /// that code, or `I2cDisable::I2cEnable` where the device reports a
    /// reserved pattern.
    pub open spec fn spec_from_code(c: u8) -> I2cDisable {
        if c == 0x01 {
            I2cDisable::I2cDisable
        } else {
            I2cDisable::I2cEnable
        }
    }

    /// Decode a register code.
    pub fn from_code(c: u8) -> (r: I2cDisable)
        ensures
            r == I2cDisable::spec_from_code(c),
    {
        if c == 0x01 {
            I2cDisable::I2cDisable
        } else {
            I2cDisable::I2cEnable
        }
    }

    /// Decoding an encoded variant restores the variant.
    pub proof fn lemma_code_roundtrip(self)
        ensures
            I2cDisable::spec_from_code(self.spec_code()) == self,
    {
    }

    /// A reserved pattern decodes to the default variant, never to an
    /// error: hardware may legitimately report undocumented codes.
    pub proof fn lemma_reserved_defaults(c: u8)
        ensures
            !I2cDisable::spec_code_is_named(c) ==> I2cDisable::spec_from_code(c) == I2cDisable::I2cEnable,
    {
    }
}

/// CS pin pull-up configuration, stored in control register 2.
#[derive(Clone, Copy, Debug, PartialEq, Eq, Structural)]
pub enum CsPuDisc {
    /// Pull-up connected to the CS pin (default).
    PullUpConnect,
    /// Pull-up disconnected from the CS pin.
    PullUpDisconnect,
}

impl CsPuDisc {
    /// The register encoding of the variant.
    pub open spec fn spec_code(self) -> u8 {
        match self {
            CsPuDisc::PullUpConnect => 0x00,
            CsPuDisc::PullUpDisconnect => 0x01,
        }
    }

    /// The register encoding of the variant.
    pub fn code(self) -> (r: u8)
        ensures
            r == self.spec_code(),
    {
        match self {
            CsPuDisc::PullUpConnect => 0x00,
            CsPuDisc::PullUpDisconnect => 0x01,
        }
    }

    /// The code is one that names a variant.
    pub open spec fn spec_code_is_named(c: u8) -> bool {
        c == 0x00 || c == 0x01
    }

    /// The variant a register code decodes to: the named variant with
    /// that code, or `CsPuDisc::PullUpConnect` where the device reports a
    /// reserved pattern.
    pub open spec fn spec_from_code(c: u8) -> CsPuDisc {
        if c == 0x01 {
            CsPuDisc::PullUpDisconnect
        } else {
            CsPuDisc::PullUpConnect
        }
    }

    /// Decode a register code.
    pub fn from_code(c: u8) -> (r: CsPuDisc)
        ensures
            r == CsPuDisc::spec_from_code(c),
    {
        if c == 0x01 {
            CsPuDisc::PullUpDisconnect
        } else {
            CsPuDisc::PullUpConnect
        }
    }

    /// Decoding an encoded variant restores the variant.
    pub proof fn lemma_code_roundtrip(self)
        ensures
            CsPuDisc::spec_from_code(self.spec_code()) == self,
    {
    }

    /// A reserved pattern decodes to the default variant, never to an
    /// error: hardware may legitimately report undocumented codes.
    pub proof fn lemma_reserved_defaults(c: u8)
        ensures
            !CsPuDisc::spec_code_is_named(c) ==> CsPuDisc::spec_from_code(c) == CsPuDisc::PullUpConnect,
    {
    }
}

/// Interrupt active level, stored in control register 3.
#[derive(Clone, Copy, Debug, PartialEq, Eq, Structural)]
pub enum HLactive {
    /// Interrupts are active high (default).
    ActiveHigh,
    /// Interrupts are active low.
    ActiveLow,
}

impl HLactive {
    /// The register encoding of the variant.
    pub open spec fn spec_code(self) -> u8 {
        match self {
            HLactive::ActiveHigh => 0x00,
            HLactive::ActiveLow => 0x01,
        }
    }

    /// The register encoding of the variant.
    pub fn code(self) -> (r: u8)
        ensures
            r == self.spec_code(),
    {
        match self {
            HLactive::ActiveHigh => 0x00,
            HLactive::ActiveLow => 0x01,
        }
    }

    /// The code is one that names a variant.
    pub open spec fn spec_code_is_named(c: u8) -> bool {
        c == 0x00 || c == 0x01
    }

    /// The variant a register code decodes to: the named variant with
    /// that code, or `HLactive::ActiveHigh` where the device reports a
    /// reserved pattern.
    pub open spec fn spec_from_code(c: u8) -> HLactive {
        if c == 0x01 {
            HLactive::ActiveLow
        } else {
            HLactive::ActiveHigh
        }
    }

    /// Decode a register code.
    pub fn from_code(c: u8) -> (r: HLactive)
        ensures
            r == HLactive::spec_from_code(c),
    {
        if c == 0x01 {
            HLactive::ActiveLow
        } else {
            HLactive::ActiveHigh
        }
    }

    /// Decoding an encoded variant restores the variant.
    pub proof fn lemma_code_roundtrip(self)
        ensures
            HLactive::spec_from_code(self.spec_code()) == self,
    {
    }

    /// A reserved pattern decodes to the default variant, never to an
    /// error: hardware may legitimately report undocumented codes.
    pub proof fn lemma_reserved_defaults(c: u8)
        ensures
            !HLactive::spec_code_is_named(c) ==> HLactive::spec_from_code(c) == HLactive::ActiveHigh,
    {
    }
}

/// Interrupt latching, stored in control register 3.
#[derive(Clone, Copy, Debug, PartialEq, Eq, Structural)]
pub enum Lir {
    /// Pulsed interrupt mode (default).
    Pulsed,
    /// Latched interrupt mode.
    Latched,
}

impl Lir {
    /// The register encoding of the variant.
    pub open spec fn spec_code(self) -> u8 {
        match self {
            Lir::Pulsed => 0x00,
            Lir::Latched => 0x01,
        }
    }

    /// The register encoding of the variant.
    pub fn code(self) -> (r: u8)
        ensures
            r == self.spec_code(),
    {
        match self {
            Lir::Pulsed => 0x00,
            Lir::Latched => 0x01,
        }
    }

    /// The code is one that names a variant.
    pub open spec fn spec_code_is_named(c: u8) -> bool {
        c == 0x00 || c == 0x01
    }

    /// The variant a register code decodes to: the named variant with
    /// that code, or `Lir::Pulsed` where the device reports a
    /// reserved pattern.
    pub open spec fn spec_from_code(c: u8) -> Lir {
        if c == 0x01 {
            Lir::Latched
        } else {
            Lir::Pulsed
        }
    }

    /// Decode a register code.
    pub fn from_code(c: u8) -> (r: Lir)
        ensures
            r == Lir::spec_from_code(c),
    {
        if c == 0x01 {
            Lir::Latched
        } else {
            Lir::Pulsed
        }
    }

    /// Decoding an encoded variant restores the variant.
    pub proof fn lemma_code_roundtrip(self)
        ensures
            Lir::spec_from_code(self.spec_code()) == self,
    {
    }

    /// A reserved pattern decodes to the default variant, never to an
    /// error: hardware may legitimately report undocumented codes.
    pub proof fn lemma_reserved_defaults(c: u8)
        ensures
            !Lir::spec_code_is_named(c) ==> Lir::spec_from_code(c) == Lir::Pulsed,
    {
    }
}

/// Interrupt pad output type, stored in control register 3.
#[derive(Clone, Copy, Debug, PartialEq, Eq, Structural)]
pub enum PpOd {
    /// Push-pull pads (default).
    PushPull,
    /// Open-drain pads.
    OpenDrain,
}

impl PpOd {
    /// The register encoding of the variant.
    pub open spec fn spec_code(self) -> u8 {
        match self {
            PpOd::PushPull => 0x00,
            PpOd::OpenDrain => 0x01,
        }
    }

    /// The register encoding of the variant.
    pub fn code(self) -> (r: u8)
        ensures
            r == self.spec_code(),
    {
        match self {
            PpOd::PushPull => 0x00,
            PpOd::OpenDrain => 0x01,
        }
    }

    /// The code is one that names a variant.
    pub open spec fn spec_code_is_named(c: u8) -> bool {
        c == 0x00 || c == 0x01
    }

    /// The variant a register code decodes to: the named variant with
    /// that code, or `PpOd::PushPull` where the device reports a
    /// reserved pattern.
    pub open spec fn spec_from_code(c: u8) -> PpOd {
        if c == 0x01 {
            PpOd::OpenDrain
        } else {
            PpOd::PushPull
        }
    }

    /// Decode a register code.
    pub fn from_code(c: u8) -> (r: PpOd)
        ensures
            r == PpOd::spec_from_code(c),
    {
        if c == 0x01 {
            PpOd::OpenDrain
        } else {
            PpOd::PushPull
        }
    }

    /// Decoding an encoded variant restores the variant.
    pub proof fn lemma_code_roundtrip(self)
        ensures
            PpOd::spec_from_code(self.spec_code()) == self,
    {
    }

    /// A reserved pattern decodes to the default variant, never to an
    /// error: hardware may legitimately report undocumented codes.
    pub proof fn lemma_reserved_defaults(c: u8)
        ensures
            !PpOd::spec_code_is_named(c) ==> PpOd::spec_from_code(c) == PpOd::PushPull,
    {
    }
}

/// Data fed to the wake-up function, stored in control register 7.
#[derive(Clone, Copy, Debug, PartialEq, Eq, Structural)]
pub enum UsrOffOnWu {
    /// High-pass filtered data (default).
    HpFeed,
    /// User-offset corrected data.
    UserOffsetFeed,
}

impl UsrOffOnWu {
    /// The register encoding of the variant.
    pub open spec fn spec_code(self) -> u8 {
        match self {
            UsrOffOnWu::HpFeed => 0x00,
            UsrOffOnWu::UserOffsetFeed => 0x01,
        }
    }

    /// The register encoding of the variant.
    pub fn code(self) -> (r: u8)
        ensures
            r == self.spec_code(),
    {
        match self {
            UsrOffOnWu::HpFeed => 0x00,
            UsrOffOnWu::UserOffsetFeed => 0x01,
        }
    }

    /// The code is one that names a variant.
    pub open spec fn spec_code_is_named(c: u8) -> bool {
        c == 0x00 || c == 0x01
    }

    /// The variant a register code decodes to: the named variant with
    /// that code, or `UsrOffOnWu::HpFeed` where the device reports a
    /// reserved pattern.
    pub open spec fn spec_from_code(c: u8) -> UsrOffOnWu {
        if c == 0x01 {
            UsrOffOnWu::UserOffsetFeed
        } else {
            UsrOffOnWu::HpFeed
        }
    }

    /// Decode a register code.
    pub fn from_code(c: u8) -> (r: UsrOffOnWu)
        ensures
            r == UsrOffOnWu::spec_from_code(c),
    {
        if c == 0x01 {
            UsrOffOnWu::UserOffsetFeed
        } else {
            UsrOffOnWu::HpFeed
        }
    }

    /// Decoding an encoded variant restores the variant.
    pub proof fn lemma_code_roundtrip(self)
        ensures
            UsrOffOnWu::spec_from_code(self.spec_code()) == self,
    {
    }

    /// A reserved pattern decodes to the default variant, never to an
    /// error: hardware may legitimately report undocumented codes.
    pub proof fn lemma_reserved_defaults(c: u8)
        ensures
            !UsrOffOnWu::spec_code_is_named(c) ==> UsrOffOnWu::spec_from_code(c) == UsrOffOnWu::HpFeed,
    {
    }
}

/// Axis priority for tap detection, stored in the Y-axis tap register.
#[derive(Clone, Copy, Debug, PartialEq, Eq, Structural)]
pub enum TapPrior {
    /// Priority X, then Y, then Z (default).
    Xyz,
    /// Priority Y, then X, then Z.
    Yxz,
    /// Priority X, then Z, then Y.
    Xzy,
    /// Priority Z, then Y, then X.
    Zyx,
    /// Priority Y, then Z, then X.
    Yzx,
    /// Priority Z, then X, then Y.
    Zxy,
}

impl TapPrior {
    /// The register encoding of the variant.
    pub open spec fn spec_code(self) -> u8 {
        match self {
            TapPrior::Xyz => 0x00,
            TapPrior::Yxz => 0x01,
            TapPrior::Xzy => 0x02,
            TapPrior::Zyx => 0x03,
            TapPrior::Yzx => 0x05,
            TapPrior::Zxy => 0x06,
        }
    }

    /// The register encoding of the variant.
    pub fn code(self) -> (r: u8)
        ensures
            r == self.spec_code(),
    {
        match self {
            TapPrior::Xyz => 0x00,
            TapPrior::Yxz => 0x01,
            TapPrior::Xzy => 0x02,
            TapPrior::Zyx => 0x03,
            TapPrior::Yzx => 0x05,
            TapPrior::Zxy => 0x06,
        }
    }

    /// The code is one that names a variant.
    pub open spec fn spec_code_is_named(c: u8) -> bool {
        c == 0x00 || c == 0x01 || c == 0x02 || c == 0x03 || c == 0x05 || c == 0x06
    }

    /// The variant a register code decodes to: the named variant with
    /// that code, or `TapPrior::Xyz` where the device reports a
    /// reserved pattern.
    pub open spec fn spec_from_code(c: u8) -> TapPrior {
        if c == 0x01 {
            TapPrior::Yxz
        } else if c == 0x02 {
            TapPrior::Xzy
        } else if c == 0x03 {
            TapPrior::Zyx
        } else if c == 0x05 {
            TapPrior::Yzx
        } else if c == 0x06 {
            TapPrior::Zxy
        } else {
            TapPrior::Xyz
        }
    }

    /// Decode a register code.
    pub fn from_code(c: u8) -> (r: TapPrior)
        ensures
            r == TapPrior::spec_from_code(c),
    {
        if c == 0x01 {
            TapPrior::Yxz
        } else if c == 0x02 {
            TapPrior::Xzy
        } else if c == 0x03 {
            TapPrior::Zyx
        } else if c == 0x05 {
            TapPrior::Yzx
        } else if c == 0x06 {
            TapPrior::Zxy
        } else {
            TapPrior::Xyz
        }
    }

    /// Decoding an encoded variant restores the variant.
    pub proof fn lemma_code_roundtrip(self)
        ensures
            TapPrior::spec_from_code(self.spec_code()) == self,
    {
    }

    /// A reserved pattern decodes to the default variant, never to an
    /// error: hardware may legitimately report undocumented codes.
    pub proof fn lemma_reserved_defaults(c: u8)
        ensures
            !TapPrior::spec_code_is_named(c) ==> TapPrior::spec_from_code(c) == TapPrior::Xyz,
    {
    }
}

/// Tap events to detect, stored in the wake-up threshold register.
#[derive(Clone, Copy, Debug, PartialEq, Eq, Structural)]
pub enum SingleDoubleTap {
    /// Detect single taps only (default).
    OnlySingle,
    /// Detect single and double taps.
    BothSingleDouble,
}

impl SingleDoubleTap {
    /// The register encoding of the variant.
    pub open spec fn spec_code(self) -> u8 {
        match self {
            SingleDoubleTap::OnlySingle => 0x00,
            SingleDoubleTap::BothSingleDouble => 0x01,
        }
    }

    /// The register encoding of the variant.
    pub fn code(self) -> (r: u8)
        ensures
            r == self.spec_code(),
    {
        match self {
            SingleDoubleTap::OnlySingle => 0x00,
            SingleDoubleTap::BothSingleDouble => 0x01,
        }
    }

    /// The code is one that names a variant.
    pub open spec fn spec_code_is_named(c: u8) -> bool {
        c == 0x00 || c == 0x01
    }

    /// The variant a register code decodes to: the named variant with
    /// that code, or `SingleDoubleTap::OnlySingle` where the device reports a
    /// reserved pattern.
    pub open spec fn spec_from_code(c: u8) -> SingleDoubleTap {
        if c == 0x01 {
            SingleDoubleTap::BothSingleDouble
        } else {
            SingleDoubleTap::OnlySingle
        }
    }

    /// Decode a register code.
    pub fn from_code(c: u8) -> (r: SingleDoubleTap)
        ensures
            r == SingleDoubleTap::spec_from_code(c),
    {
        if c == 0x01 {
            SingleDoubleTap::BothSingleDouble
        } else {
            SingleDoubleTap::OnlySingle
        }
    }

    /// Decoding an encoded variant restores the variant.
    pub proof fn lemma_code_roundtrip(self)
        ensures
            SingleDoubleTap::spec_from_code(self.spec_code()) == self,
    {
    }

    /// A reserved pattern decodes to the default variant, never to an
    /// error: hardware may legitimately report undocumented codes.
    pub proof fn lemma_reserved_defaults(c: u8)
        ensures
            !SingleDoubleTap::spec_code_is_named(c) ==> SingleDoubleTap::spec_from_code(c) == SingleDoubleTap::OnlySingle,
    {
    }
}

/// Data fed to the 6D function, stored in control register 7.
#[derive(Clone, Copy, Debug, PartialEq, Eq, Structural)]
pub enum LpassOn6d {
    /// ODR/2 low-pass filtered data (default).
    OdrDiv2Feed,
    /// LPF2 output data.
    Lpf2Feed,
}

impl LpassOn6d {
    /// The register encoding of the variant.
    pub open spec fn spec_code(self) -> u8 {
        match self {
            LpassOn6d::OdrDiv2Feed => 0x00,
            LpassOn6d::Lpf2Feed => 0x01,
        }
    }

    /// The register encoding of the variant.
    pub fn code(self) -> (r: u8)
        ensures
            r == self.spec_code(),
    {
        match self {
            LpassOn6d::OdrDiv2Feed => 0x00,
            LpassOn6d::Lpf2Feed => 0x01,
        }
    }

    /// The code is one that names a variant.
    pub open spec fn spec_code_is_named(c: u8) -> bool {
        c == 0x00 || c == 0x01
    }

    /// The variant a register code decodes to: the named variant with
    /// that code, or `LpassOn6d::OdrDiv2Feed` where the device reports a
    /// reserved pattern.
    pub open spec fn spec_from_code(c: u8) -> LpassOn6d {
        if c == 0x01 {
            LpassOn6d::Lpf2Feed
        } else {
            LpassOn6d::OdrDiv2Feed
        }
    }

    /// Decode a register code.
    pub fn from_code(c: u8) -> (r: LpassOn6d)
        ensures
            r == LpassOn6d::spec_from_code(c),
    {
        if c == 0x01 {
            LpassOn6d::Lpf2Feed
        } else {
            LpassOn6d::OdrDiv2Feed
        }
    }

    /// Decoding an encoded variant restores the variant.
    pub proof fn lemma_code_roundtrip(self)
        ensures
            LpassOn6d::spec_from_code(self.spec_code()) == self,
    {
    }

    /// A reserved pattern decodes to the default variant, never to an
    /// error: hardware may legitimately report undocumented codes.
    pub proof fn lemma_reserved_defaults(c: u8)
        ensures
            !LpassOn6d::spec_code_is_named(c) ==> LpassOn6d::spec_from_code(c) == LpassOn6d::OdrDiv2Feed,
    {
    }
}

/// Free-fall threshold, stored in the free-fall register.
#[derive(Clone, Copy, Debug, PartialEq, Eq, Structural)]
pub enum FfThs {
    /// 5 LSB at +/-2 g (default).
    _5Lsb,
    /// 7 LSB at +/-2 g.
    _7Lsb,
    /// 8 LSB at +/-2 g.
    _8Lsb,
    /// 10 LSB at +/-2 g.
    _10Lsb,
    /// 11 LSB at +/-2 g.
    _11Lsb,
    /// 13 LSB at +/-2 g.
    _13Lsb,
    /// 15 LSB at +/-2 g.
    _15Lsb,
    /// 16 LSB at +/-2 g.
    _16Lsb,
}

impl FfThs {
    /// The register encoding of the variant.
    pub open spec fn spec_code(self) -> u8 {
        match self {
            FfThs::_5Lsb => 0x00,
            FfThs::_7Lsb => 0x01,
            FfThs::_8Lsb => 0x02,
            FfThs::_10Lsb => 0x03,
            FfThs::_11Lsb => 0x04,
            FfThs::_13Lsb => 0x05,
            FfThs::_15Lsb => 0x06,
            FfThs::_16Lsb => 0x07,
        }
    }

    /// The register encoding of the variant.
    pub fn code(self) -> (r: u8)
        ensures
            r == self.spec_code(),
    {
        match self {
            FfThs::_5Lsb => 0x00,
            FfThs::_7Lsb => 0x01,
            FfThs::_8Lsb => 0x02,
            FfThs::_10Lsb => 0x03,
            FfThs::_11Lsb => 0x04,
            FfThs::_13Lsb => 0x05,
            FfThs::_15Lsb => 0x06,
            FfThs::_16Lsb => 0x07,
        }
    }

    /// The code is one that names a variant.
    pub open spec fn spec_code_is_named(c: u8) -> bool {
        c == 0x00 || c == 0x01 || c == 0x02 || c == 0x03 || c == 0x04 || c == 0x05 || c == 0x06 || c == 0x07
    }

    /// The variant a register code decodes to: the named variant with
    /// that code, or `FfThs::_5Lsb` where the device reports a
    /// reserved pattern.
    pub open spec fn spec_from_code(c: u8) -> FfThs {
        if c == 0x01 {
            FfThs::_7Lsb
        } else if c == 0x02 {
            FfThs::_8Lsb
        } else if c == 0x03 {
            FfThs::_10Lsb
        } else if c == 0x04 {
            FfThs::_11Lsb
        } else if c == 0x05 {
            FfThs::_13Lsb
        } else if c == 0x06 {
            FfThs::_15Lsb
        } else if c == 0x07 {
            FfThs::_16Lsb
        } else {
            FfThs::_5Lsb
        }
    }

    /// Decode a register code.
    pub fn from_code(c: u8) -> (r: FfThs)
        ensures
            r == FfThs::spec_from_code(c),
    {
        if c == 0x01 {
            FfThs::_7Lsb
        } else if c == 0x02 {
            FfThs::_8Lsb
        } else if c == 0x03 {
            FfThs::_10Lsb
        } else if c == 0x04 {
            FfThs::_11Lsb
        } else if c == 0x05 {
            FfThs::_13Lsb
        } else if c == 0x06 {
            FfThs::_15Lsb
        } else if c == 0x07 {
            FfThs::_16Lsb
        } else {
            FfThs::_5Lsb
        }
    }

    /// Decoding an encoded variant restores the variant.
    pub proof fn lemma_code_roundtrip(self)
        ensures
            FfThs::spec_from_code(self.spec_code()) == self,
    {
    }

    /// A reserved pattern decodes to the default variant, never to an
    /// error: hardware may legitimately report undocumented codes.
    pub proof fn lemma_reserved_defaults(c: u8)
        ensures
            !FfThs::spec_code_is_named(c) ==> FfThs::spec_from_code(c) == FfThs::_5Lsb,
    {
    }
}

/// FIFO operating mode, stored in the FIFO control register.
#[derive(Clone, Copy, Debug, PartialEq, Eq, Structural)]
pub enum Fmode {
    /// Bypass mode, the FIFO is disabled (default).
    BypassMode,
    /// FIFO mode: collection stops when the FIFO is full.
    FifoMode,
    /// Stream until a trigger event, then FIFO mode.
    StreamToFifoMode,
    /// Bypass until a trigger event, then stream mode.
    BypassToStreamMode,
    /// Stream mode: old data is overwritten when full.
    StreamMode,
}

impl Fmode {
    /// The register encoding of the variant.
    pub open spec fn spec_code(self) -> u8 {
        match self {
            Fmode::BypassMode => 0x00,
            Fmode::FifoMode => 0x01,
            Fmode::StreamToFifoMode => 0x03,
            Fmode::BypassToStreamMode => 0x04,
            Fmode::StreamMode => 0x06,
        }
    }

    /// The register encoding of the variant.
    pub fn code(self) -> (r: u8)
        ensures
            r == self.spec_code(),
    {
        match self {
            Fmode::BypassMode => 0x00,
            Fmode::FifoMode => 0x01,
            Fmode::StreamToFifoMode => 0x03,
            Fmode::BypassToStreamMode => 0x04,
            Fmode::StreamMode => 0x06,
        }
    }

    /// The code is one that names a variant.
    pub open spec fn spec_code_is_named(c: u8) -> bool {
        c == 0x00 || c == 0x01 || c == 0x03 || c == 0x04 || c == 0x06
    }

    /// The variant a register code decodes to: the named variant with
    /// that code, or `Fmode::BypassMode` where the device reports a
    /// reserved pattern.
    pub open spec fn spec_from_code(c: u8) -> Fmode {
        if c == 0x01 {
            Fmode::FifoMode
        } else if c == 0x03 {
            Fmode::StreamToFifoMode
        } else if c == 0x04 {
            Fmode::BypassToStreamMode
        } else if c == 0x06 {
            Fmode::StreamMode
        } else {
            Fmode::BypassMode
        }
    }

    /// Decode a register code.
    pub fn from_code(c: u8) -> (r: Fmode)
        ensures
            r == Fmode::spec_from_code(c),
    {
        if c == 0x01 {
            Fmode::FifoMode
        } else if c == 0x03 {
            Fmode::StreamToFifoMode
        } else if c == 0x04 {
            Fmode::BypassToStreamMode
        } else if c == 0x06 {
            Fmode::StreamMode
        } else {
            Fmode::BypassMode
        }
    }

    /// Decoding an encoded variant restores the variant.
    pub proof fn lemma_code_roundtrip(self)
        ensures
            Fmode::spec_from_code(self.spec_code()) == self,
    {
    }

    /// A reserved pattern decodes to the default variant, never to an
    /// error: hardware may legitimately report undocumented codes.
    pub proof fn lemma_reserved_defaults(c: u8)
        ensures
            !Fmode::spec_code_is_named(c) ==> Fmode::spec_from_code(c) == Fmode::BypassMode,
    {
    }
}

} // verus!
