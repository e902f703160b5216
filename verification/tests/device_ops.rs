//! Driver operations exercised against the in-memory register file: every
//! scenario drives the same read-modify-write sequences that reach real
//! hardware.

use iis2dlpc::bus::MockBus;
use iis2dlpc::driver::{Error, Iis2dlpc, ID};
use iis2dlpc::enums::{Fmode, Fs, St};
use iis2dlpc::modes::{Fds, Mode, Odr, SleepOn};
use iis2dlpc::ctrl::{Ctrl4Int1PadCtrl, Ctrl5Int2PadCtrl};

const CTRL1: u8 = 0x20;
const CTRL2: u8 = 0x21;
const CTRL6: u8 = 0x25;
const CTRL7: u8 = 0x3F;
const WAKE_UP_DUR: u8 = 0x35;
const FREE_FALL: u8 = 0x36;

fn driver() -> Iis2dlpc<MockBus, ()> {
    Iis2dlpc::from_bus(MockBus::new(), ())
}

fn no_int1_route() -> Ctrl4Int1PadCtrl {
    Ctrl4Int1PadCtrl {
        int1_drdy: 0,
        int1_fth: 0,
        int1_diff5: 0,
        int1_tap: 0,
        int1_ff: 0,
        int1_wu: 0,
        int1_single_tap: 0,
        int1_6d: 0,
    }
}

fn no_int2_route() -> Ctrl5Int2PadCtrl {
    Ctrl5Int2PadCtrl {
        int2_drdy: 0,
        int2_fth: 0,
        int2_diff5: 0,
        int2_ovr: 0,
        int2_drdy_t: 0,
        int2_boot: 0,
        int2_sleep_chg: 0,
        int2_sleep_state: 0,
    }
}

#[test]
fn device_id_reads_who_am_i() {
    let mut d = driver();
    d.bus.set_reg(0x0F, ID);
    assert_eq!(d.device_id_get().unwrap(), 0x44);
}

#[test]
fn power_mode_roundtrip_low_noise_low_power_2() {
    // The mode whose sub-fields are mode 0x0, lp_mode 0x1, low_noise 0x1.
    let mut d = driver();
    d.power_mode_set(Mode::ContLowPwrLowNoise2).unwrap();
    assert_eq!(d.power_mode_get().unwrap(), Mode::ContLowPwrLowNoise2);
}

#[test]
fn power_mode_set_preserves_other_fields() {
    let mut d = driver();
    // Pre-load both registers with arbitrary content.
    d.bus.set_reg(CTRL1, 0xA5);
    d.bus.set_reg(CTRL6, 0x5A);
    d.power_mode_set(Mode::HighPerformance).unwrap();
    // CTRL1: odr (high nibble) kept, mode = 1, lp_mode = 0.
    assert_eq!(d.bus.get_reg(CTRL1), 0xA4);
    // CTRL6: everything kept but low_noise (bit 2) cleared.
    assert_eq!(d.bus.get_reg(CTRL6), 0x5A & !0x04);
    assert_eq!(d.power_mode_get().unwrap(), Mode::HighPerformance);
}

#[test]
fn data_rate_roundtrip() {
    let mut d = driver();
    d.data_rate_set(Odr::_200hz).unwrap();
    assert_eq!(d.data_rate_get().unwrap(), Odr::_200hz);
    d.data_rate_set(Odr::SetPinTrig).unwrap();
    assert_eq!(d.data_rate_get().unwrap(), Odr::SetPinTrig);
    // CTRL1 odr nibble holds 0x2 for the pin-trigger rate.
    assert_eq!(d.bus.get_reg(CTRL1) >> 4, 0x2);
}

#[test]
fn block_data_update_isolated() {
    let mut d = driver();
    d.bus.set_reg(CTRL2, 0xA5);
    d.block_data_update_set(1).unwrap();
    // Only bit 3 may change.
    assert_eq!(d.bus.get_reg(CTRL2), 0xA5 | 0x08);
    assert_eq!(d.block_data_update_get().unwrap(), 1);
}

#[test]
fn full_scale_roundtrip() {
    let mut d = driver();
    for fs in [Fs::_2g, Fs::_4g, Fs::_8g, Fs::_16g] {
        d.full_scale_set(fs).unwrap();
        assert_eq!(d.full_scale_get().unwrap(), fs);
    }
}

#[test]
fn self_test_roundtrip() {
    let mut d = driver();
    d.self_test_set(St::Negative).unwrap();
    assert_eq!(d.self_test_get().unwrap(), St::Negative);
    d.self_test_set(St::Disable).unwrap();
    assert_eq!(d.self_test_get().unwrap(), St::Disable);
}

#[test]
fn filter_path_roundtrip() {
    let mut d = driver();
    for p in [Fds::HighPassOnOut, Fds::UserOffsetOnOut, Fds::LpfOnOut] {
        d.filter_path_set(p).unwrap();
        assert_eq!(d.filter_path_get().unwrap(), p);
    }
}

#[test]
fn act_mode_roundtrip() {
    let mut d = driver();
    for m in [SleepOn::ActInact, SleepOn::StatMotion, SleepOn::NoDetection] {
        d.act_mode_set(m).unwrap();
        assert_eq!(d.act_mode_get().unwrap(), m);
    }
}

#[test]
fn free_fall_duration_split_across_registers() {
    let mut d = driver();
    d.ff_dur_set(0x25).unwrap();
    // Bit 5 of the value lands in the wake-up duration register's top bit.
    assert_eq!(d.bus.get_reg(WAKE_UP_DUR) >> 7, 1);
    // Bits 0-4 land in the free-fall register above the threshold field.
    assert_eq!(d.bus.get_reg(FREE_FALL) >> 3, 0x05);
    assert_eq!(d.ff_dur_get().unwrap(), 0x25);
}

#[test]
fn free_fall_duration_preserves_neighbours() {
    let mut d = driver();
    d.bus.set_reg(WAKE_UP_DUR, 0x7F);
    d.bus.set_reg(FREE_FALL, 0x07);
    d.ff_dur_set(0x20).unwrap();
    // Low seven bits of the wake-up duration register kept.
    assert_eq!(d.bus.get_reg(WAKE_UP_DUR), 0xFF);
    // Free-fall threshold kept, duration bits cleared.
    assert_eq!(d.bus.get_reg(FREE_FALL), 0x07);
    assert_eq!(d.ff_dur_get().unwrap(), 0x20);
}

#[test]
fn fifo_watermark_independent_of_mode() {
    let mut d = driver();
    d.fifo_watermark_set(0x11).unwrap();
    d.fifo_mode_set(Fmode::BypassMode).unwrap();
    assert_eq!(d.fifo_watermark_get().unwrap(), 0x11);
    d.fifo_mode_set(Fmode::StreamMode).unwrap();
    assert_eq!(d.fifo_watermark_get().unwrap(), 0x11);
    assert_eq!(d.fifo_mode_get().unwrap(), Fmode::StreamMode);
}

#[test]
fn fifo_level_and_flags() {
    let mut d = driver();
    d.bus.set_reg(0x2F, 0xE3);
    assert_eq!(d.fifo_data_level_get().unwrap(), 0x23);
    assert_eq!(d.fifo_ovr_flag_get().unwrap(), 1);
    assert_eq!(d.fifo_wtm_flag_get().unwrap(), 1);
}

#[test]
fn int1_routing_raises_shared_enable() {
    let mut d = driver();
    let route = Ctrl4Int1PadCtrl { int1_tap: 1, ..no_int1_route() };
    d.pin_int1_route_set(&route).unwrap();
    assert_eq!(d.bus.get_reg(0x23), 0x08);
    // interrupts_enable is bit 5 of CTRL7.
    assert_eq!((d.bus.get_reg(CTRL7) >> 5) & 1, 1);
    assert_eq!(d.pin_int1_route_get().unwrap(), route);
}

#[test]
fn int1_routing_clears_shared_enable_when_all_off() {
    let mut d = driver();
    d.bus.set_reg(CTRL7, 0xFF);
    d.pin_int1_route_set(&no_int1_route()).unwrap();
    assert_eq!((d.bus.get_reg(CTRL7) >> 5) & 1, 0);
    // The rest of CTRL7 is preserved.
    assert_eq!(d.bus.get_reg(CTRL7), 0xFF & !0x20);
}

#[test]
fn int1_routing_keeps_enable_for_int2_sleep() {
    let mut d = driver();
    // INT2 already routes the sleep-state interrupt.
    let route2 = Ctrl5Int2PadCtrl { int2_sleep_state: 1, ..no_int2_route() };
    d.pin_int2_route_set(&route2).unwrap();
    assert_eq!((d.bus.get_reg(CTRL7) >> 5) & 1, 1);
    // Clearing every INT1 signal must keep the shared enable on.
    d.pin_int1_route_set(&no_int1_route()).unwrap();
    assert_eq!((d.bus.get_reg(CTRL7) >> 5) & 1, 1);
    // Clearing INT2 as well turns it off.
    d.pin_int2_route_set(&no_int2_route()).unwrap();
    assert_eq!((d.bus.get_reg(CTRL7) >> 5) & 1, 0);
}

#[test]
fn int_enable_ignores_data_ready_and_fifo_routes() {
    // Data-ready and FIFO signals run without the shared enable flag.
    let mut d = driver();
    let route = Ctrl4Int1PadCtrl { int1_drdy: 1, int1_fth: 1, int1_diff5: 1, ..no_int1_route() };
    d.pin_int1_route_set(&route).unwrap();
    assert_eq!((d.bus.get_reg(CTRL7) >> 5) & 1, 0);
}

#[test]
fn user_offsets_roundtrip() {
    let mut d = driver();
    d.usr_offset_x_set(-10).unwrap();
    d.usr_offset_y_set(127).unwrap();
    d.usr_offset_z_set(-128).unwrap();
    assert_eq!(d.usr_offset_x_get().unwrap(), -10);
    assert_eq!(d.usr_offset_y_get().unwrap(), 127);
    assert_eq!(d.usr_offset_z_get().unwrap(), -128);
    assert_eq!(d.bus.get_reg(0x3C), 0xF6);
}

#[test]
fn raw_samples_decode_from_register_pairs() {
    let mut d = driver();
    // X = 0x8000 -> -8192; Y = 0x0004 -> 1; Z = 0x7FFC -> 8191.
    d.bus.set_reg(0x28, 0x00);
    d.bus.set_reg(0x29, 0x80);
    d.bus.set_reg(0x2A, 0x04);
    d.bus.set_reg(0x2B, 0x00);
    d.bus.set_reg(0x2C, 0xFC);
    d.bus.set_reg(0x2D, 0x7F);
    let a = d.acceleration_raw_get().unwrap();
    assert_eq!(a, [-8192, 1, 8191]);
    // Temperature pair at 0x0D/0x0E: 0xFFF0 -> -1.
    d.bus.set_reg(0x0D, 0xF0);
    d.bus.set_reg(0x0E, 0xFF);
    assert_eq!(d.temperature_raw_get().unwrap(), -1);
}

#[test]
fn status_and_sources_decode() {
    let mut d = driver();
    d.bus.set_reg(0x27, 0x01);
    assert_eq!(d.flag_data_ready_get().unwrap(), 1);
    let s = d.status_reg_get().unwrap();
    assert_eq!(s.drdy, 1);
    assert_eq!(s.ff_ia, 0);
    d.bus.set_reg(0x37, 0x02);
    d.bus.set_reg(0x38, 0x04);
    d.bus.set_reg(0x39, 0x04);
    d.bus.set_reg(0x3A, 0x40);
    d.bus.set_reg(0x3B, 0x01);
    let all = d.all_sources_get().unwrap();
    assert_eq!(all.status_dup.ff_ia, 1);
    assert_eq!(all.wake_up_src.x_wu, 1);
    assert_eq!(all.tap_src.x_tap, 1);
    assert_eq!(all.sixd_src.six_d_ia, 1);
    assert_eq!(all.all_int_src.ff_ia, 1);
}

#[test]
fn reset_and_boot_flags() {
    let mut d = driver();
    d.bus.set_reg(CTRL2, 0x04);
    d.reset_set().unwrap();
    assert_eq!(d.bus.get_reg(CTRL2), 0x44);
    assert_eq!(d.reset_get().unwrap(), 1);
    d.boot_set().unwrap();
    assert_eq!(d.bus.get_reg(CTRL2), 0xC4);
    assert_eq!(d.boot_get().unwrap(), 1);
}

#[test]
fn raw_register_access() {
    let mut d = driver();
    let data = vec![0x11u8, 0x22, 0x33];
    d.write_to_register(0x30, &data).unwrap();
    let mut back = vec![0u8; 3];
    d.read_from_register(0x30, &mut back).unwrap();
    assert_eq!(back, data);
    assert_eq!(d.bus.get_reg(0x31), 0x22);
}

#[test]
fn bus_error_type_is_exposed() {
    // The mock transport never fails, so every operation returns Ok; the
    // error enum still types the failure a real transport would surface.
    let mut d = driver();
    let r: Result<u8, Error<()>> = d.device_id_get();
    assert!(r.is_ok());
}
