//! Bit-exact decoding and encoding of the register records: byte round
//! trips, field isolation and sign extension.

use iis2dlpc::config::{FifoCtrl, FifoSamples, FreeFall, WakeUpDur, WakeUpThs};
use iis2dlpc::driver::I2CAddress;
use iis2dlpc::regmap::Reg;
use iis2dlpc::ctrl::{Ctrl1, Ctrl2, Ctrl4Int1PadCtrl, Ctrl6};
use iis2dlpc::offsets::{byte_of_i8, i8_of_byte, XOfsUsr};
use iis2dlpc::outputs::{OutT, OutX, OutY, OutZ};
use iis2dlpc::sources::Status;

#[test]
fn ctrl1_field_layout() {
    // 0b1011_0110: odr = 0b1011, mode = 0b01, lp_mode = 0b10.
    let c = Ctrl1::from_bits(0xB6);
    assert_eq!(c.odr, 0x0B);
    assert_eq!(c.mode, 0x01);
    assert_eq!(c.lp_mode, 0x02);
    assert_eq!(c.to_bits(), 0xB6);
}

#[test]
fn ctrl2_byte_roundtrip_all_values() {
    let mut b: u16 = 0;
    while b < 256 {
        assert_eq!(Ctrl2::from_bits(b as u8).to_bits(), b as u8);
        b += 1;
    }
}

#[test]
fn ctrl2_field_isolation() {
    // Arbitrary content; replacing bdu must leave every other field alone.
    let c = Ctrl2::from_bits(0xAD);
    let d = Ctrl2 { bdu: 1, ..c };
    let r = Ctrl2::from_bits(d.to_bits());
    assert_eq!(r.bdu, 1);
    assert_eq!(r.sim, c.sim);
    assert_eq!(r.i2c_disable, c.i2c_disable);
    assert_eq!(r.if_add_inc, c.if_add_inc);
    assert_eq!(r.cs_pu_disc, c.cs_pu_disc);
    assert_eq!(r.not_used_01, c.not_used_01);
    assert_eq!(r.soft_reset, c.soft_reset);
    assert_eq!(r.boot, c.boot);
}

#[test]
fn ctrl6_field_isolation() {
    let c = Ctrl6::from_bits(0x5A);
    let d = Ctrl6 { fs: 3, ..c };
    let r = Ctrl6::from_bits(d.to_bits());
    assert_eq!(r.fs, 3);
    assert_eq!(r.not_used_01, c.not_used_01);
    assert_eq!(r.low_noise, c.low_noise);
    assert_eq!(r.fds, c.fds);
    assert_eq!(r.bw_filt, c.bw_filt);
}

#[test]
fn encoding_truncates_oversized_fields() {
    // A value wider than the field is truncated to the field's span and
    // cannot spill into its neighbours.
    let c = Ctrl6 { not_used_01: 0, low_noise: 0, fds: 0, fs: 0xFF, bw_filt: 0 };
    assert_eq!(c.to_bits(), 0x30);
    let w = FifoCtrl { fth: 0xFF, fmode: 0 };
    assert_eq!(w.to_bits(), 0x1F);
}

#[test]
fn ctrl4_single_bit_fields() {
    let c = Ctrl4Int1PadCtrl::from_bits(0x88);
    assert_eq!(c.int1_tap, 1);
    assert_eq!(c.int1_6d, 1);
    assert_eq!(c.int1_drdy, 0);
    assert_eq!(c.int1_ff, 0);
    assert_eq!(c.to_bits(), 0x88);
}

#[test]
fn status_flags_decode() {
    let s = Status::from_bits(0x81);
    assert_eq!(s.drdy, 1);
    assert_eq!(s.fifo_ths, 1);
    assert_eq!(s.ff_ia, 0);
    assert_eq!(s.wu_ia, 0);
}

#[test]
fn fifo_registers_decode() {
    let f = FifoCtrl::from_bits(0xD5);
    assert_eq!(f.fth, 0x15);
    assert_eq!(f.fmode, 0x6);
    let s = FifoSamples::from_bits(0xE3);
    assert_eq!(s.diff, 0x23);
    assert_eq!(s.fifo_ovr, 1);
    assert_eq!(s.fifo_fth, 1);
}

#[test]
fn free_fall_and_wake_up_dur_layout() {
    let f = FreeFall::from_bits(0x2D);
    assert_eq!(f.ff_ths, 0x5);
    assert_eq!(f.ff_dur, 0x5);
    let d = WakeUpDur::from_bits(0xB7);
    assert_eq!(d.sleep_dur, 0x7);
    assert_eq!(d.stationary, 1);
    assert_eq!(d.wake_dur, 1);
    assert_eq!(d.ff_dur, 1);
    let t = WakeUpThs::from_bits(0xE5);
    assert_eq!(t.wk_ths, 0x25);
    assert_eq!(t.sleep_on, 1);
    assert_eq!(t.single_double_tap, 1);
}

#[test]
fn acceleration_sign_extension() {
    // 14-bit pattern 10_0000_0000_0000 left-justified: the smallest 14-bit
    // two's-complement value, not a large positive number.
    let x = OutX::from_bits(0x8000);
    assert_eq!(x.x, -8192);
    let y = OutY::from_bits(0x8000);
    assert_eq!(y.y, -8192);
    let z = OutZ::from_bits(0x8000);
    assert_eq!(z.z, -8192);
    // All ones decodes to -1.
    assert_eq!(OutX::from_bits(0xFFFC).x, -1);
    // Top bit clear decodes to the plain value.
    assert_eq!(OutX::from_bits(0x0004).x, 1);
    assert_eq!(OutX::from_bits(0x7FFC).x, 8191);
    // The two low bits do not belong to the sample.
    assert_eq!(OutX::from_bits(0x0007).x, 1);
}

#[test]
fn temperature_sign_extension() {
    // 12-bit pattern 1000_0000_0000 left-justified in 16 bits.
    let t = OutT::from_bits(0x8000);
    assert_eq!(t.temp, -2048);
    assert_eq!(OutT::from_bits(0xFFF0).temp, -1);
    assert_eq!(OutT::from_bits(0x0010).temp, 1);
    assert_eq!(OutT::from_bits(0x7FF0).temp, 2047);
}

#[test]
fn offset_byte_roundtrip() {
    assert_eq!(i8_of_byte(0xFF), -1);
    assert_eq!(i8_of_byte(0x80), -128);
    assert_eq!(i8_of_byte(0x7F), 127);
    assert_eq!(byte_of_i8(-1), 0xFF);
    assert_eq!(byte_of_i8(-128), 0x80);
    assert_eq!(byte_of_i8(127), 0x7F);
    let mut v: i16 = -128;
    while v < 128 {
        assert_eq!(i8_of_byte(byte_of_i8(v as i8)), v as i8);
        v += 1;
    }
    let x = XOfsUsr::from_bits(0xF6);
    assert_eq!(x.x_ofs_usr, -10);
    assert_eq!(x.to_bits(), 0xF6);
}

#[test]
fn register_addresses() {
    assert_eq!(Reg::OutTL.addr(), 0x0D);
    assert_eq!(Reg::WhoAmI.addr(), 0x0F);
    assert_eq!(Reg::Ctrl1.addr(), 0x20);
    assert_eq!(Reg::Ctrl4Int1PadCtrl.addr(), 0x23);
    assert_eq!(Reg::Ctrl5Int2PadCtrl.addr(), 0x24);
    assert_eq!(Reg::OutXL.addr(), 0x28);
    assert_eq!(Reg::FifoCtrl.addr(), 0x2E);
    assert_eq!(Reg::WakeUpDur.addr(), 0x35);
    assert_eq!(Reg::FreeFall.addr(), 0x36);
    assert_eq!(Reg::Ctrl7.addr(), 0x3F);
    assert_eq!(I2CAddress::I2cAddL.addr(), 0x18);
    assert_eq!(I2CAddress::I2cAddH.addr(), 0x19);
}
