//! Encoding and decoding of the configuration enumerations: round trips for
//! every named variant and default fallback for reserved codes.

use iis2dlpc::enums::{
    BwFilt, CsPuDisc, DrdyPulsed, FfThs, Fmode, Fs, HLactive, I2cDisable, Lir, PpOd, Sim,
    SingleDoubleTap, St, TapPrior, UsrOffOnWu, UsrOffW,
};
use iis2dlpc::modes::{Fds, Mode, Odr, SleepOn};

#[test]
fn mode_codes_match_datasheet() {
    assert_eq!(Mode::HighPerformance.code(), 0x04);
    assert_eq!(Mode::ContLowPwr12bit.code(), 0x00);
    assert_eq!(Mode::SingleLowPwr4.code(), 0x0B);
    assert_eq!(Mode::HighPerformanceLowNoise.code(), 0x14);
    assert_eq!(Mode::ContLowPwrLowNoise2.code(), 0x11);
    assert_eq!(Mode::SingleLowLowNoisePwr12bit.code(), 0x18);
}

#[test]
fn mode_roundtrip_every_variant() {
    let all = [
        Mode::HighPerformance,
        Mode::ContLowPwr4,
        Mode::ContLowPwr3,
        Mode::ContLowPwr2,
        Mode::ContLowPwr12bit,
        Mode::SingleLowPwr4,
        Mode::SingleLowPwr3,
        Mode::SingleLowPwr2,
        Mode::SingleLowPwr12bit,
        Mode::HighPerformanceLowNoise,
        Mode::ContLowPwrLowNoise4,
        Mode::ContLowPwrLowNoise3,
        Mode::ContLowPwrLowNoise2,
        Mode::ContLowPwrLowNoise12bit,
        Mode::SingleLowPwrLowNoise4,
        Mode::SingleLowPwrLowNoise3,
        Mode::SingleLowPwrLowNoise2,
        Mode::SingleLowLowNoisePwr12bit,
    ];
    for m in all {
        assert_eq!(Mode::from_code(m.code()), m);
        assert_eq!(Mode::new(m.mode(), m.lp_mode(), m.low_noise()), m);
    }
}

#[test]
fn mode_subfields() {
    // 0x11: low_noise = 1, mode = 0, lp_mode = 1.
    let m = Mode::ContLowPwrLowNoise2;
    assert_eq!(m.mode(), 0x0);
    assert_eq!(m.lp_mode(), 0x1);
    assert_eq!(m.low_noise(), 0x1);
    // 0x14: low_noise = 1, mode = 1, lp_mode = 0.
    let h = Mode::HighPerformanceLowNoise;
    assert_eq!(h.mode(), 0x1);
    assert_eq!(h.lp_mode(), 0x0);
    assert_eq!(h.low_noise(), 0x1);
}

#[test]
fn mode_reserved_code_decodes_to_default() {
    assert_eq!(Mode::from_code(0x05), Mode::ContLowPwr12bit);
    assert_eq!(Mode::from_code(0x0F), Mode::ContLowPwr12bit);
    assert_eq!(Mode::from_code(0xFF), Mode::ContLowPwr12bit);
}

#[test]
fn odr_roundtrip_every_variant() {
    let all = [
        Odr::Off,
        Odr::_1_6hzLpOnly,
        Odr::_12_5hz,
        Odr::_25hz,
        Odr::_50hz,
        Odr::_100hz,
        Odr::_200hz,
        Odr::_400hz,
        Odr::_800hz,
        Odr::_1_6khz,
        Odr::SetSwTrig,
        Odr::SetPinTrig,
    ];
    for v in all {
        assert_eq!(Odr::from_code(v.code()), v);
        assert_eq!(Odr::new(v.odr(), v.slp_mode()), v);
    }
    assert_eq!(Odr::SetSwTrig.slp_mode(), 1);
    assert_eq!(Odr::SetPinTrig.slp_mode(), 2);
    assert_eq!(Odr::SetPinTrig.odr(), 2);
}

#[test]
fn odr_reserved_code_decodes_to_default() {
    assert_eq!(Odr::from_code(0x0A), Odr::Off);
    assert_eq!(Odr::from_code(0x32), Odr::Off);
}

#[test]
fn fds_roundtrip_every_variant() {
    for v in [Fds::LpfOnOut, Fds::UserOffsetOnOut, Fds::HighPassOnOut] {
        assert_eq!(Fds::from_code(v.code()), v);
        assert_eq!(Fds::new(v.fds(), v.usr_off_on_out()), v);
    }
    assert_eq!(Fds::HighPassOnOut.fds(), 1);
    assert_eq!(Fds::HighPassOnOut.usr_off_on_out(), 0);
    assert_eq!(Fds::UserOffsetOnOut.fds(), 0);
    assert_eq!(Fds::UserOffsetOnOut.usr_off_on_out(), 1);
}

#[test]
fn fds_reserved_code_decodes_to_default() {
    // fds = 1 together with usr_off_on_out = 1 names no variant.
    assert_eq!(Fds::from_code(0x11), Fds::LpfOnOut);
}

#[test]
fn sleep_on_roundtrip_every_variant() {
    for v in [SleepOn::NoDetection, SleepOn::ActInact, SleepOn::StatMotion] {
        assert_eq!(SleepOn::from_code(v.code()), v);
        assert_eq!(SleepOn::new(v.sleep_on(), v.stationary()), v);
    }
    assert_eq!(SleepOn::StatMotion.sleep_on(), 1);
    assert_eq!(SleepOn::StatMotion.stationary(), 1);
}

#[test]
fn sleep_on_reserved_code_decodes_to_default() {
    // stationary = 1 with sleep_on = 0 names no variant.
    assert_eq!(SleepOn::from_code(0x02), SleepOn::NoDetection);
}

#[test]
fn simple_enum_roundtrips() {
    for v in [Fs::_2g, Fs::_4g, Fs::_8g, Fs::_16g] {
        assert_eq!(Fs::from_code(v.code()), v);
    }
    for v in [St::Disable, St::Positive, St::Negative] {
        assert_eq!(St::from_code(v.code()), v);
    }
    for v in [BwFilt::OdrDiv2, BwFilt::OdrDiv4, BwFilt::OdrDiv10, BwFilt::OdrDiv20] {
        assert_eq!(BwFilt::from_code(v.code()), v);
    }
    for v in [
        TapPrior::Xyz,
        TapPrior::Yxz,
        TapPrior::Xzy,
        TapPrior::Zyx,
        TapPrior::Yzx,
        TapPrior::Zxy,
    ] {
        assert_eq!(TapPrior::from_code(v.code()), v);
    }
    for v in [
        FfThs::_5Lsb,
        FfThs::_7Lsb,
        FfThs::_8Lsb,
        FfThs::_10Lsb,
        FfThs::_11Lsb,
        FfThs::_13Lsb,
        FfThs::_15Lsb,
        FfThs::_16Lsb,
    ] {
        assert_eq!(FfThs::from_code(v.code()), v);
    }
    for v in [
        Fmode::BypassMode,
        Fmode::FifoMode,
        Fmode::StreamToFifoMode,
        Fmode::BypassToStreamMode,
        Fmode::StreamMode,
    ] {
        assert_eq!(Fmode::from_code(v.code()), v);
    }
    assert_eq!(UsrOffW::from_code(1), UsrOffW::_15_6mgLsb);
    assert_eq!(DrdyPulsed::from_code(1), DrdyPulsed::Pulsed);
    assert_eq!(Sim::from_code(1), Sim::Spi3Wire);
    assert_eq!(I2cDisable::from_code(1), I2cDisable::I2cDisable);
    assert_eq!(CsPuDisc::from_code(1), CsPuDisc::PullUpDisconnect);
    assert_eq!(HLactive::from_code(1), HLactive::ActiveLow);
    assert_eq!(Lir::from_code(1), Lir::Latched);
    assert_eq!(PpOd::from_code(1), PpOd::OpenDrain);
    assert_eq!(UsrOffOnWu::from_code(1), UsrOffOnWu::UserOffsetFeed);
    assert_eq!(SingleDoubleTap::from_code(1), SingleDoubleTap::BothSingleDouble);
}

#[test]
fn reserved_codes_fall_back_without_error() {
    assert_eq!(Fs::from_code(0xFF), Fs::_2g);
    assert_eq!(St::from_code(3), St::Disable);
    assert_eq!(TapPrior::from_code(4), TapPrior::Xyz);
    assert_eq!(TapPrior::from_code(7), TapPrior::Xyz);
    assert_eq!(Fmode::from_code(2), Fmode::BypassMode);
    assert_eq!(Fmode::from_code(5), Fmode::BypassMode);
    assert_eq!(Fmode::from_code(7), Fmode::BypassMode);
    assert_eq!(Lir::from_code(9), Lir::Pulsed);
}
