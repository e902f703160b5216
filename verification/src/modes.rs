//! Composite configuration enumerations.
//!
//! Each of these logical settings spans sub-fields of two physical registers.
//! A variant's packed code is the bitwise concatenation of its sub-field
//! values at fixed offsets; the driver splits the code into the sub-fields
//! when writing and reassembles it when reading.  A reserved combination
//! decodes to the default variant rather than failing.

use vstd::prelude::*;

verus! {

/// Accelerometer operating mode: operating mode and low-power mode in control register 1, low-noise
/// enable in control register 6.
#[derive(Clone, Copy, Debug, PartialEq, Eq, Structural)]
pub enum Mode {
    /// High-performance mode.
    HighPerformance,
    /// Continuous low-power mode 4.
    ContLowPwr4,
    /// Continuous low-power mode 3.
    ContLowPwr3,
    /// Continuous low-power mode 2.
    ContLowPwr2,
    /// Continuous low-power mode, 12-bit resolution (default).
    ContLowPwr12bit,
    /// Single low-power mode 4.
    SingleLowPwr4,
    /// Single low-power mode 3.
    SingleLowPwr3,
    /// Single low-power mode 2.
    SingleLowPwr2,
    /// Single low-power mode, 12-bit resolution.
    SingleLowPwr12bit,
    /// High-performance mode with low noise.
    HighPerformanceLowNoise,
    /// Continuous low-power mode 4 with low noise.
    ContLowPwrLowNoise4,
    /// Continuous low-power mode 3 with low noise.
    ContLowPwrLowNoise3,
    /// Continuous low-power mode 2 with low noise.
    ContLowPwrLowNoise2,
    /// Continuous low-power mode, 12-bit resolution, with low noise.
    ContLowPwrLowNoise12bit,
    /// Single low-power mode 4 with low noise.
    SingleLowPwrLowNoise4,
    /// Single low-power mode 3 with low noise.
    SingleLowPwrLowNoise3,
    /// Single low-power mode 2 with low noise.
    SingleLowPwrLowNoise2,
    /// Single low-power mode, 12-bit resolution, with low noise.
    SingleLowLowNoisePwr12bit,
}

impl Mode {
    /// The register encoding of the variant.
    pub open spec fn spec_code(self) -> u8 {
        match self {
            Mode::HighPerformance => 0x04,
            Mode::ContLowPwr4 => 0x03,
            Mode::ContLowPwr3 => 0x02,
            Mode::ContLowPwr2 => 0x01,
            Mode::ContLowPwr12bit => 0x00,
            Mode::SingleLowPwr4 => 0x0B,
            Mode::SingleLowPwr3 => 0x0A,
            Mode::SingleLowPwr2 => 0x09,
            Mode::SingleLowPwr12bit => 0x08,
            Mode::HighPerformanceLowNoise => 0x14,
            Mode::ContLowPwrLowNoise4 => 0x13,
            Mode::ContLowPwrLowNoise3 => 0x12,
            Mode::ContLowPwrLowNoise2 => 0x11,
            Mode::ContLowPwrLowNoise12bit => 0x10,
            Mode::SingleLowPwrLowNoise4 => 0x1B,
            Mode::SingleLowPwrLowNoise3 => 0x1A,
            Mode::SingleLowPwrLowNoise2 => 0x19,
            Mode::SingleLowLowNoisePwr12bit => 0x18,
        }
    }

    /// The register encoding of the variant.
    pub fn code(self) -> (r: u8)
        ensures
            r == self.spec_code(),
    {
        match self {
            Mode::HighPerformance => 0x04,
            Mode::ContLowPwr4 => 0x03,
            Mode::ContLowPwr3 => 0x02,
            Mode::ContLowPwr2 => 0x01,
            Mode::ContLowPwr12bit => 0x00,
            Mode::SingleLowPwr4 => 0x0B,
            Mode::SingleLowPwr3 => 0x0A,
            Mode::SingleLowPwr2 => 0x09,
            Mode::SingleLowPwr12bit => 0x08,
            Mode::HighPerformanceLowNoise => 0x14,
            Mode::ContLowPwrLowNoise4 => 0x13,
            Mode::ContLowPwrLowNoise3 => 0x12,
            Mode::ContLowPwrLowNoise2 => 0x11,
            Mode::ContLowPwrLowNoise12bit => 0x10,
            Mode::SingleLowPwrLowNoise4 => 0x1B,
            Mode::SingleLowPwrLowNoise3 => 0x1A,
            Mode::SingleLowPwrLowNoise2 => 0x19,
            Mode::SingleLowLowNoisePwr12bit => 0x18,
        }
    }

    /// The code is one that names a variant.
    pub open spec fn spec_code_is_named(c: u8) -> bool {
        c == 0x04 || c == 0x03 || c == 0x02 || c == 0x01 || c == 0x00 || c == 0x0B
            || c == 0x0A || c == 0x09 || c == 0x08 || c == 0x14 || c == 0x13 || c == 0x12
            || c == 0x11 || c == 0x10 || c == 0x1B || c == 0x1A || c == 0x19 || c == 0x18
    }

    /// The variant a register code decodes to: the named variant with
    /// that code, or `Mode::ContLowPwr12bit` where the device reports a
    /// reserved pattern.
    pub open spec fn spec_from_code(c: u8) -> Mode {
        if c == 0x04 {
            Mode::HighPerformance
        } else if c == 0x03 {
            Mode::ContLowPwr4
        } else if c == 0x02 {
            Mode::ContLowPwr3
        } else if c == 0x01 {
            Mode::ContLowPwr2
        } else if c == 0x0B {
            Mode::SingleLowPwr4
        } else if c == 0x0A {
            Mode::SingleLowPwr3
        } else if c == 0x09 {
            Mode::SingleLowPwr2
        } else if c == 0x08 {
            Mode::SingleLowPwr12bit
        } else if c == 0x14 {
            Mode::HighPerformanceLowNoise
        } else if c == 0x13 {
            Mode::ContLowPwrLowNoise4
        } else if c == 0x12 {
            Mode::ContLowPwrLowNoise3
        } else if c == 0x11 {
            Mode::ContLowPwrLowNoise2
        } else if c == 0x10 {
            Mode::ContLowPwrLowNoise12bit
        } else if c == 0x1B {
            Mode::SingleLowPwrLowNoise4
        } else if c == 0x1A {
            Mode::SingleLowPwrLowNoise3
        } else if c == 0x19 {
            Mode::SingleLowPwrLowNoise2
        } else if c == 0x18 {
            Mode::SingleLowLowNoisePwr12bit
        } else {
            Mode::ContLowPwr12bit
        }
    }

    /// Decode a register code.
    pub fn from_code(c: u8) -> (r: Mode)
        ensures
            r == Mode::spec_from_code(c),
    {
        if c == 0x04 {
            Mode::HighPerformance
        } else if c == 0x03 {
            Mode::ContLowPwr4
        } else if c == 0x02 {
            Mode::ContLowPwr3
        } else if c == 0x01 {
            Mode::ContLowPwr2
        } else if c == 0x0B {
            Mode::SingleLowPwr4
        } else if c == 0x0A {
            Mode::SingleLowPwr3
        } else if c == 0x09 {
            Mode::SingleLowPwr2
        } else if c == 0x08 {
            Mode::SingleLowPwr12bit
        } else if c == 0x14 {
            Mode::HighPerformanceLowNoise
        } else if c == 0x13 {
            Mode::ContLowPwrLowNoise4
        } else if c == 0x12 {
            Mode::ContLowPwrLowNoise3
        } else if c == 0x11 {
            Mode::ContLowPwrLowNoise2
        } else if c == 0x10 {
            Mode::ContLowPwrLowNoise12bit
        } else if c == 0x1B {
            Mode::SingleLowPwrLowNoise4
        } else if c == 0x1A {
            Mode::SingleLowPwrLowNoise3
        } else if c == 0x19 {
            Mode::SingleLowPwrLowNoise2
        } else if c == 0x18 {
            Mode::SingleLowLowNoisePwr12bit
        } else {
            Mode::ContLowPwr12bit
        }
    }

    /// Decoding an encoded variant restores the variant.
    pub proof fn lemma_code_roundtrip(self)
        ensures
            Mode::spec_from_code(self.spec_code()) == self,
    {
    }

    /// A reserved pattern decodes to the default variant, never to an
    /// error: hardware may legitimately report undocumented codes.
    pub proof fn lemma_reserved_defaults(c: u8)
        ensures
            !Mode::spec_code_is_named(c) ==> Mode::spec_from_code(c) == Mode::ContLowPwr12bit,
    {
    }

    /// The packed code assembled from the sub-field values: `low_noise * 16 + mode * 4 + lp_mode`.
    pub open spec fn spec_pack(mode: u8, lp_mode: u8, low_noise: u8) -> u8 {
        (low_noise * 16 + mode * 4 + lp_mode) as u8
    }

    /// The variant whose sub-fields have the given values; reserved
    /// combinations give the default variant.
    pub fn new(mode: u8, lp_mode: u8, low_noise: u8) -> (r: Mode)
        requires
            mode < 4,
            lp_mode < 4,
            low_noise < 2,
        ensures
            r == Mode::spec_from_code(Mode::spec_pack(mode, lp_mode, low_noise)),
    {
        Mode::from_code(low_noise * 16 + mode * 4 + lp_mode)
    }

    /// The `mode` sub-field, stored in control register 1.
    pub open spec fn spec_mode(self) -> u8 {
        self.spec_code() / 4 % 4
    }

    /// The `mode` sub-field, stored in control register 1.
    pub fn mode(&self) -> (r: u8)
        ensures
            r == self.spec_mode(),
            r < 4,
    {
        self.code() / 4 % 4
    }

    /// The `lp_mode` sub-field, stored in control register 1.
    pub open spec fn spec_lp_mode(self) -> u8 {
        self.spec_code() % 4
    }

    /// The `lp_mode` sub-field, stored in control register 1.
    pub fn lp_mode(&self) -> (r: u8)
        ensures
            r == self.spec_lp_mode(),
            r < 4,
    {
        self.code() % 4
    }

    /// The `low_noise` sub-field, stored in control register 6.
    pub open spec fn spec_low_noise(self) -> u8 {
        self.spec_code() / 16
    }

    /// The `low_noise` sub-field, stored in control register 6.
    pub fn low_noise(&self) -> (r: u8)
        ensures
            r == self.spec_low_noise(),
            r < 2,
    {
        self.code() / 16
    }

    /// Unpacking a named variant into its sub-fields and packing them
    /// again restores the variant.
    pub proof fn lemma_pack_unpack(self)
        ensures
            Mode::spec_from_code(
                Mode::spec_pack(self.spec_mode(), self.spec_lp_mode(), self.spec_low_noise()),
            ) == self,
    {
    }
}

/// Output data rate: the rate in control register 1, the single-conversion trigger in control register 3.
#[derive(Clone, Copy, Debug, PartialEq, Eq, Structural)]
pub enum Odr {
    /// Accelerometer off (default).
    Off,
    /// 1.6 Hz, low-power modes only.
    _1_6hzLpOnly,
    /// 12.5 Hz.
    _12_5hz,
    /// 25 Hz.
    _25hz,
    /// 50 Hz.
    _50hz,
    /// 100 Hz.
    _100hz,
    /// 200 Hz.
    _200hz,
    /// 400 Hz.
    _400hz,
    /// 800 Hz.
    _800hz,
    /// 1.6 kHz.
    _1_6khz,
    /// Single conversion triggered by software.
    SetSwTrig,
    /// Single conversion triggered by the INT2 pin.
    SetPinTrig,
}

impl Odr {
    /// The register encoding of the variant.
    pub open spec fn spec_code(self) -> u8 {
        match self {
            Odr::Off => 0x00,
            Odr::_1_6hzLpOnly => 0x01,
            Odr::_12_5hz => 0x02,
            Odr::_25hz => 0x03,
            Odr::_50hz => 0x04,
            Odr::_100hz => 0x05,
            Odr::_200hz => 0x06,
            Odr::_400hz => 0x07,
            Odr::_800hz => 0x08,
            Odr::_1_6khz => 0x09,
            Odr::SetSwTrig => 0x12,
            Odr::SetPinTrig => 0x22,
        }
    }

    /// The register encoding of the variant.
    pub fn code(self) -> (r: u8)
        ensures
            r == self.spec_code(),
    {
        match self {
            Odr::Off => 0x00,
            Odr::_1_6hzLpOnly => 0x01,
            Odr::_12_5hz => 0x02,
            Odr::_25hz => 0x03,
            Odr::_50hz => 0x04,
            Odr::_100hz => 0x05,
            Odr::_200hz => 0x06,
            Odr::_400hz => 0x07,
            Odr::_800hz => 0x08,
            Odr::_1_6khz => 0x09,
            Odr::SetSwTrig => 0x12,
            Odr::SetPinTrig => 0x22,
        }
    }

    /// The code is one that names a variant.
    pub open spec fn spec_code_is_named(c: u8) -> bool {
        c == 0x00 || c == 0x01 || c == 0x02 || c == 0x03 || c == 0x04 || c == 0x05
            || c == 0x06 || c == 0x07 || c == 0x08 || c == 0x09 || c == 0x12 || c == 0x22
    }

    /// The variant a register code decodes to: the named variant with
    /// that code, or `Odr::Off` where the device reports a
    /// reserved pattern.
    pub open spec fn spec_from_code(c: u8) -> Odr {
        if c == 0x01 {
            Odr::_1_6hzLpOnly
        } else if c == 0x02 {
            Odr::_12_5hz
        } else if c == 0x03 {
            Odr::_25hz
        } else if c == 0x04 {
            Odr::_50hz
        } else if c == 0x05 {
            Odr::_100hz
        } else if c == 0x06 {
            Odr::_200hz
        } else if c == 0x07 {
            Odr::_400hz
        } else if c == 0x08 {
            Odr::_800hz
        } else if c == 0x09 {
            Odr::_1_6khz
        } else if c == 0x12 {
            Odr::SetSwTrig
        } else if c == 0x22 {
            Odr::SetPinTrig
        } else {
            Odr::Off
        }
    }

    /// Decode a register code.
    pub fn from_code(c: u8) -> (r: Odr)
        ensures
            r == Odr::spec_from_code(c),
    {
        if c == 0x01 {
            Odr::_1_6hzLpOnly
        } else if c == 0x02 {
            Odr::_12_5hz
        } else if c == 0x03 {
            Odr::_25hz
        } else if c == 0x04 {
            Odr::_50hz
        } else if c == 0x05 {
            Odr::_100hz
        } else if c == 0x06 {
            Odr::_200hz
        } else if c == 0x07 {
            Odr::_400hz
        } else if c == 0x08 {
            Odr::_800hz
        } else if c == 0x09 {
            Odr::_1_6khz
        } else if c == 0x12 {
            Odr::SetSwTrig
        } else if c == 0x22 {
            Odr::SetPinTrig
        } else {
            Odr::Off
        }
    }

    /// Decoding an encoded variant restores the variant.
    pub proof fn lemma_code_roundtrip(self)
        ensures
            Odr::spec_from_code(self.spec_code()) == self,
    {
    }

    /// A reserved pattern decodes to the default variant, never to an
    /// error: hardware may legitimately report undocumented codes.
    pub proof fn lemma_reserved_defaults(c: u8)
        ensures
            !Odr::spec_code_is_named(c) ==> Odr::spec_from_code(c) == Odr::Off,
    {
    }

    /// The packed code assembled from the sub-field values: `slp_mode * 16 + odr`.
    pub open spec fn spec_pack(odr: u8, slp_mode: u8) -> u8 {
        (slp_mode * 16 + odr) as u8
    }

    /// The variant whose sub-fields have the given values; reserved
    /// combinations give the default variant.
    pub fn new(odr: u8, slp_mode: u8) -> (r: Odr)
        requires
            odr < 16,
            slp_mode < 4,
        ensures
            r == Odr::spec_from_code(Odr::spec_pack(odr, slp_mode)),
    {
        Odr::from_code(slp_mode * 16 + odr)
    }

    /// The `odr` sub-field, stored in control register 1.
    pub open spec fn spec_odr(self) -> u8 {
        self.spec_code() % 16
    }

    /// The `odr` sub-field, stored in control register 1.
    pub fn odr(&self) -> (r: u8)
        ensures
            r == self.spec_odr(),
            r < 16,
    {
        self.code() % 16
    }

    /// The `slp_mode` sub-field, stored in control register 3.
    pub open spec fn spec_slp_mode(self) -> u8 {
        self.spec_code() / 16 % 4
    }

    /// The `slp_mode` sub-field, stored in control register 3.
    pub fn slp_mode(&self) -> (r: u8)
        ensures
            r == self.spec_slp_mode(),
            r < 4,
    {
        self.code() / 16 % 4
    }

    /// Unpacking a named variant into its sub-fields and packing them
    /// again restores the variant.
    pub proof fn lemma_pack_unpack(self)
        ensures
            Odr::spec_from_code(Odr::spec_pack(self.spec_odr(), self.spec_slp_mode())) == self,
    {
    }
}

/// Filtering path for the outputs: the filter select in control register 6, the user-offset switch
/// in control register 7.
#[derive(Clone, Copy, Debug, PartialEq, Eq, Structural)]
pub enum Fds {
    /// Low-pass filter on the output path (default).
    LpfOnOut,
    /// User offset applied to the output path.
    UserOffsetOnOut,
    /// High-pass filter on the output path.
    HighPassOnOut,
}

impl Fds {
    /// The register encoding of the variant.
    pub open spec fn spec_code(self) -> u8 {
        match self {
            Fds::LpfOnOut => 0x00,
            Fds::UserOffsetOnOut => 0x01,
            Fds::HighPassOnOut => 0x10,
        }
    }

    /// The register encoding of the variant.
    pub fn code(self) -> (r: u8)
        ensures
            r == self.spec_code(),
    {
        match self {
            Fds::LpfOnOut => 0x00,
            Fds::UserOffsetOnOut => 0x01,
            Fds::HighPassOnOut => 0x10,
        }
    }

    /// The code is one that names a variant.
    pub open spec fn spec_code_is_named(c: u8) -> bool {
        c == 0x00 || c == 0x01 || c == 0x10
    }

    /// The variant a register code decodes to: the named variant with
    /// that code, or `Fds::LpfOnOut` where the device reports a
    /// reserved pattern.
    pub open spec fn spec_from_code(c: u8) -> Fds {
        if c == 0x01 {
            Fds::UserOffsetOnOut
        } else if c == 0x10 {
            Fds::HighPassOnOut
        } else {
            Fds::LpfOnOut
        }
    }

    /// Decode a register code.
    pub fn from_code(c: u8) -> (r: Fds)
        ensures
            r == Fds::spec_from_code(c),
    {
        if c == 0x01 {
            Fds::UserOffsetOnOut
        } else if c == 0x10 {
            Fds::HighPassOnOut
        } else {
            Fds::LpfOnOut
        }
    }

    /// Decoding an encoded variant restores the variant.
    pub proof fn lemma_code_roundtrip(self)
        ensures
            Fds::spec_from_code(self.spec_code()) == self,
    {
    }

    /// A reserved pattern decodes to the default variant, never to an
    /// error: hardware may legitimately report undocumented codes.
    pub proof fn lemma_reserved_defaults(c: u8)
        ensures
            !Fds::spec_code_is_named(c) ==> Fds::spec_from_code(c) == Fds::LpfOnOut,
    {
    }

    /// The packed code assembled from the sub-field values: `fds * 16 + usr_off_on_out`.
    pub open spec fn spec_pack(fds: u8, usr_off_on_out: u8) -> u8 {
        (fds * 16 + usr_off_on_out) as u8
    }

    /// The variant whose sub-fields have the given values; reserved
    /// combinations give the default variant.
    pub fn new(fds: u8, usr_off_on_out: u8) -> (r: Fds)
        requires
            fds < 2,
            usr_off_on_out < 2,
        ensures
            r == Fds::spec_from_code(Fds::spec_pack(fds, usr_off_on_out)),
    {
        Fds::from_code(fds * 16 + usr_off_on_out)
    }

    /// The `fds` sub-field, stored in control register 6.
    pub open spec fn spec_fds(self) -> u8 {
        self.spec_code() / 16 % 2
    }

    /// The `fds` sub-field, stored in control register 6.
    pub fn fds(&self) -> (r: u8)
        ensures
            r == self.spec_fds(),
            r < 2,
    {
        self.code() / 16 % 2
    }

    /// The `usr_off_on_out` sub-field, stored in control register 7.
    pub open spec fn spec_usr_off_on_out(self) -> u8 {
        self.spec_code() % 2
    }

    /// The `usr_off_on_out` sub-field, stored in control register 7.
    pub fn usr_off_on_out(&self) -> (r: u8)
        ensures
            r == self.spec_usr_off_on_out(),
            r < 2,
    {
        self.code() % 2
    }

    /// Unpacking a named variant into its sub-fields and packing them
    /// again restores the variant.
    pub proof fn lemma_pack_unpack(self)
        ensures
            Fds::spec_from_code(Fds::spec_pack(self.spec_fds(), self.spec_usr_off_on_out())) == self,
    {
    }
}

/// Activity detection: the sleep enable in the wake-up threshold register, the stationary enable in
/// the wake-up duration register.
#[derive(Clone, Copy, Debug, PartialEq, Eq, Structural)]
pub enum SleepOn {
    /// No activity detection (default).
    NoDetection,
    /// Detect activity and inactivity.
    ActInact,
    /// Detect stationary and motion states.
    StatMotion,
}

impl SleepOn {
    /// The register encoding of the variant.
    pub open spec fn spec_code(self) -> u8 {
        match self {
            SleepOn::NoDetection => 0x00,
            SleepOn::ActInact => 0x01,
            SleepOn::StatMotion => 0x03,
        }
    }

    /// The register encoding of the variant.
    pub fn code(self) -> (r: u8)
        ensures
            r == self.spec_code(),
    {
        match self {
            SleepOn::NoDetection => 0x00,
            SleepOn::ActInact => 0x01,
            SleepOn::StatMotion => 0x03,
        }
    }

    /// The code is one that names a variant.
    pub open spec fn spec_code_is_named(c: u8) -> bool {
        c == 0x00 || c == 0x01 || c == 0x03
    }

    /// The variant a register code decodes to: the named variant with
    /// that code, or `SleepOn::NoDetection` where the device reports a
    /// reserved pattern.
    pub open spec fn spec_from_code(c: u8) -> SleepOn {
        if c == 0x01 {
            SleepOn::ActInact
        } else if c == 0x03 {
            SleepOn::StatMotion
        } else {
            SleepOn::NoDetection
        }
    }

    /// Decode a register code.
    pub fn from_code(c: u8) -> (r: SleepOn)
        ensures
            r == SleepOn::spec_from_code(c),
    {
        if c == 0x01 {
            SleepOn::ActInact
        } else if c == 0x03 {
            SleepOn::StatMotion
        } else {
            SleepOn::NoDetection
        }
    }

    /// Decoding an encoded variant restores the variant.
    pub proof fn lemma_code_roundtrip(self)
        ensures
            SleepOn::spec_from_code(self.spec_code()) == self,
    {
    }

    /// A reserved pattern decodes to the default variant, never to an
    /// error: hardware may legitimately report undocumented codes.
    pub proof fn lemma_reserved_defaults(c: u8)
        ensures
            !SleepOn::spec_code_is_named(c) ==> SleepOn::spec_from_code(c) == SleepOn::NoDetection,
    {
    }

    /// The packed code assembled from the sub-field values: `stationary * 2 + sleep_on`.
    pub open spec fn spec_pack(sleep_on: u8, stationary: u8) -> u8 {
        (stationary * 2 + sleep_on) as u8
    }

    /// The variant whose sub-fields have the given values; reserved
    /// combinations give the default variant.
    pub fn new(sleep_on: u8, stationary: u8) -> (r: SleepOn)
        requires
            sleep_on < 2,
            stationary < 2,
        ensures
            r == SleepOn::spec_from_code(SleepOn::spec_pack(sleep_on, stationary)),
    {
        SleepOn::from_code(stationary * 2 + sleep_on)
    }

    /// The `sleep_on` sub-field, stored in the wake-up threshold register.
    pub open spec fn spec_sleep_on(self) -> u8 {
        self.spec_code() % 2
    }

    /// The `sleep_on` sub-field, stored in the wake-up threshold register.
    pub fn sleep_on(&self) -> (r: u8)
        ensures
            r == self.spec_sleep_on(),
            r < 2,
    {
        self.code() % 2
    }

    /// The `stationary` sub-field, stored in the wake-up duration register.
    pub open spec fn spec_stationary(self) -> u8 {
        self.spec_code() / 2 % 2
    }

    /// The `stationary` sub-field, stored in the wake-up duration register.
    pub fn stationary(&self) -> (r: u8)
        ensures
            r == self.spec_stationary(),
            r < 2,
    {
        self.code() / 2 % 2
    }

    /// Unpacking a named variant into its sub-fields and packing them
    /// again restores the variant.
    pub proof fn lemma_pack_unpack(self)
        ensures
            SleepOn::spec_from_code(SleepOn::spec_pack(self.spec_sleep_on(), self.spec_stationary())) == self,
    {
    }
}

} // verus!
