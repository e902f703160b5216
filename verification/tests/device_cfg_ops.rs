//! The remaining configuration operations, each exercised against the
//! in-memory register file with a read-back and a check of the raw byte.

use iis2dlpc::bus::MockBus;
use iis2dlpc::driver::Iis2dlpc;
use iis2dlpc::enums::{
    BwFilt, CsPuDisc, DrdyPulsed, FfThs, HLactive, I2cDisable, Lir, LpassOn6d, PpOd, Sim,
    SingleDoubleTap, St, TapPrior, UsrOffOnWu, UsrOffW,
};

const CTRL2: u8 = 0x21;
const CTRL3: u8 = 0x22;
const CTRL6: u8 = 0x25;
const CTRL7: u8 = 0x3F;
const TAP_THS_X: u8 = 0x30;
const TAP_THS_Y: u8 = 0x31;
const TAP_THS_Z: u8 = 0x32;
const INT_DUR: u8 = 0x33;
const WAKE_UP_THS: u8 = 0x34;
const WAKE_UP_DUR: u8 = 0x35;
const FREE_FALL: u8 = 0x36;

fn driver() -> Iis2dlpc<MockBus, ()> {
    Iis2dlpc::from_bus(MockBus::new(), ())
}

#[test]
fn auto_increment_and_interface_bits() {
    let mut d = driver();
    d.auto_increment_set(1).unwrap();
    assert_eq!(d.auto_increment_get().unwrap(), 1);
    assert_eq!(d.bus.get_reg(CTRL2), 0x04);
    d.spi_mode_set(Sim::Spi3Wire).unwrap();
    assert_eq!(d.spi_mode_get().unwrap(), Sim::Spi3Wire);
    d.i2c_interface_set(I2cDisable::I2cDisable).unwrap();
    assert_eq!(d.i2c_interface_get().unwrap(), I2cDisable::I2cDisable);
    d.cs_mode_set(CsPuDisc::PullUpDisconnect).unwrap();
    assert_eq!(d.cs_mode_get().unwrap(), CsPuDisc::PullUpDisconnect);
    // sim is bit 0, i2c_disable bit 1, if_add_inc bit 2, cs_pu_disc bit 4.
    assert_eq!(d.bus.get_reg(CTRL2), 0x17);
}

#[test]
fn pin_configuration_bits() {
    let mut d = driver();
    d.pin_polarity_set(HLactive::ActiveLow).unwrap();
    assert_eq!(d.pin_polarity_get().unwrap(), HLactive::ActiveLow);
    d.int_notification_set(Lir::Latched).unwrap();
    assert_eq!(d.int_notification_get().unwrap(), Lir::Latched);
    d.pin_mode_set(PpOd::OpenDrain).unwrap();
    assert_eq!(d.pin_mode_get().unwrap(), PpOd::OpenDrain);
    // h_lactive is bit 3, lir bit 4, pp_od bit 5.
    assert_eq!(d.bus.get_reg(CTRL3), 0x38);
    d.all_on_int1_set(1).unwrap();
    assert_eq!(d.all_on_int1_get().unwrap(), 1);
    // int2_on_int1 is bit 6 of CTRL7.
    assert_eq!(d.bus.get_reg(CTRL7), 0x40);
}

#[test]
fn filter_and_feed_configuration() {
    let mut d = driver();
    d.filter_bandwidth_set(BwFilt::OdrDiv20).unwrap();
    assert_eq!(d.filter_bandwidth_get().unwrap(), BwFilt::OdrDiv20);
    // bw_filt occupies bits 6-7 of CTRL6.
    assert_eq!(d.bus.get_reg(CTRL6), 0xC0);
    d.reference_mode_set(1).unwrap();
    assert_eq!(d.reference_mode_get().unwrap(), 1);
    d.data_ready_mode_set(DrdyPulsed::Pulsed).unwrap();
    assert_eq!(d.data_ready_mode_get().unwrap(), DrdyPulsed::Pulsed);
    d.wkup_feed_data_set(UsrOffOnWu::UserOffsetFeed).unwrap();
    assert_eq!(d.wkup_feed_data_get().unwrap(), UsrOffOnWu::UserOffsetFeed);
    d.sixd_feed_data_set(LpassOn6d::Lpf2Feed).unwrap();
    assert_eq!(d.sixd_feed_data_get().unwrap(), LpassOn6d::Lpf2Feed);
    d.offset_weight_set(UsrOffW::_15_6mgLsb).unwrap();
    assert_eq!(d.offset_weight_get().unwrap(), UsrOffW::_15_6mgLsb);
}

#[test]
fn wake_up_configuration() {
    let mut d = driver();
    d.wkup_threshold_set(0x2A).unwrap();
    assert_eq!(d.wkup_threshold_get().unwrap(), 0x2A);
    assert_eq!(d.bus.get_reg(WAKE_UP_THS), 0x2A);
    d.wkup_dur_set(2).unwrap();
    assert_eq!(d.wkup_dur_get().unwrap(), 2);
    // wake_dur occupies bits 5-6 of the wake-up duration register.
    assert_eq!(d.bus.get_reg(WAKE_UP_DUR), 0x40);
    d.act_sleep_dur_set(9).unwrap();
    assert_eq!(d.act_sleep_dur_get().unwrap(), 9);
    assert_eq!(d.bus.get_reg(WAKE_UP_DUR), 0x49);
    // An oversized threshold is truncated to the six-bit field.
    d.wkup_threshold_set(0xFF).unwrap();
    assert_eq!(d.wkup_threshold_get().unwrap(), 0x3F);
}

#[test]
fn tap_configuration() {
    let mut d = driver();
    d.tap_threshold_x_set(0x0C).unwrap();
    assert_eq!(d.tap_threshold_x_get().unwrap(), 0x0C);
    d.tap_threshold_y_set(0x0D).unwrap();
    assert_eq!(d.tap_threshold_y_get().unwrap(), 0x0D);
    d.tap_threshold_z_set(0x0E).unwrap();
    assert_eq!(d.tap_threshold_z_get().unwrap(), 0x0E);
    d.tap_axis_priority_set(TapPrior::Zxy).unwrap();
    assert_eq!(d.tap_axis_priority_get().unwrap(), TapPrior::Zxy);
    // tap_prior occupies bits 5-7 above the five-bit threshold.
    assert_eq!(d.bus.get_reg(TAP_THS_Y), 0xCD);
    d.tap_detection_on_x_set(1).unwrap();
    d.tap_detection_on_y_set(1).unwrap();
    d.tap_detection_on_z_set(1).unwrap();
    assert_eq!(d.tap_detection_on_x_get().unwrap(), 1);
    assert_eq!(d.tap_detection_on_y_get().unwrap(), 1);
    assert_eq!(d.tap_detection_on_z_get().unwrap(), 1);
    assert_eq!(d.bus.get_reg(TAP_THS_Z), 0xEE);
    d.tap_shock_set(3).unwrap();
    d.tap_quiet_set(2).unwrap();
    d.tap_dur_set(7).unwrap();
    assert_eq!(d.tap_shock_get().unwrap(), 3);
    assert_eq!(d.tap_quiet_get().unwrap(), 2);
    assert_eq!(d.tap_dur_get().unwrap(), 7);
    // shock bits 0-1, quiet bits 2-3, latency bits 4-7.
    assert_eq!(d.bus.get_reg(INT_DUR), 0x7B);
    d.tap_mode_set(SingleDoubleTap::BothSingleDouble).unwrap();
    assert_eq!(d.tap_mode_get().unwrap(), SingleDoubleTap::BothSingleDouble);
    d.bus.set_reg(0x39, 0x10);
    assert_eq!(d.tap_src_get().unwrap().double_tap, 1);
}

#[test]
fn orientation_configuration() {
    let mut d = driver();
    d.sixd_threshold_set(2).unwrap();
    assert_eq!(d.sixd_threshold_get().unwrap(), 2);
    d.fourd_mode_set(1).unwrap();
    assert_eq!(d.fourd_mode_get().unwrap(), 1);
    // six_d_ths occupies bits 5-6, four_d_en bit 7 of the X threshold register.
    assert_eq!(d.bus.get_reg(TAP_THS_X), 0xC0);
    d.bus.set_reg(0x3A, 0x21);
    let s = d.sixd_src_get().unwrap();
    assert_eq!(s.xl, 1);
    assert_eq!(s.zh, 1);
}

#[test]
fn free_fall_and_self_test_configuration() {
    let mut d = driver();
    d.ff_threshold_set(FfThs::_10Lsb).unwrap();
    assert_eq!(d.ff_threshold_get().unwrap(), FfThs::_10Lsb);
    assert_eq!(d.bus.get_reg(FREE_FALL), 0x03);
    d.self_test_set(St::Positive).unwrap();
    assert_eq!(d.self_test_get().unwrap(), St::Positive);
    // st occupies bits 6-7 of CTRL3.
    assert_eq!(d.bus.get_reg(CTRL3), 0x40);
}
