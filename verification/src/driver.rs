//! The device driver: semantic operations over the register file.
//!
//! Every operation is named for a device concept and performs a fixed
//! sequence of register reads and writes through the bus.  A setter reads
//! the affected register, replaces only the fields it is about, and writes
//! the register back, so no operation ever clobbers a neighbouring field.
//! Each contract states exactly which registers change and what they hold
//! afterwards; every other register is proved untouched, whether the
//! operation succeeds or fails.  A failure of the transport is passed
//! through as [`Error::Bus`]; a composite operation that fails after its
//! first write leaves the device partially updated, and its contract says
//! no more than that.

use vstd::prelude::*;

use crate::bus::{
    BusOperation, reg_written, regs_written2, same_regs, untouched_except, untouched_except2,
};
use crate::ctrl::{Ctrl1, Ctrl3, Ctrl6};
use crate::modes::{Mode, Odr};
use crate::outputs::{OutT, OutX, OutY, OutZ, spec_word};
use crate::regmap::{
    CTRL1_ADDR, CTRL3_ADDR, CTRL6_ADDR, OUT_T_H_ADDR, OUT_T_L_ADDR, OUT_X_H_ADDR, OUT_X_L_ADDR,
    OUT_Y_H_ADDR, OUT_Y_L_ADDR, OUT_Z_H_ADDR, OUT_Z_L_ADDR, WHO_AM_I_ADDR,
};

verus! {

/// The device identity: the WHO_AM_I register of every such part reads as
/// this constant.
pub const ID: u8 = 0x44;

/// The value that turns a single-bit register field on.
pub const PROPERTY_ENABLE: u8 = 1;

/// The value that turns a single-bit register field off.
pub const PROPERTY_DISABLE: u8 = 0;

/// The two I2C addresses the device answers to, selected by the SA0 pin.
#[derive(Clone, Copy, Debug, PartialEq, Eq, Structural)]
pub enum I2CAddress {
    /// Address 0x18: SA0 tied to ground.
    I2cAddL,
    /// Address 0x19: SA0 tied to the supply.
    I2cAddH,
}

impl I2CAddress {
    /// The 7-bit bus address.
    pub open spec fn spec_addr(self) -> u8 {
        match self {
            I2CAddress::I2cAddL => 0x18,
            I2CAddress::I2cAddH => 0x19,
        }
    }

    /// The 7-bit bus address.
    pub fn addr(self) -> (r: u8)
        ensures
            r == self.spec_addr(),
    {
        match self {
            I2CAddress::I2cAddL => 0x18,
            I2CAddress::I2cAddH => 0x19,
        }
    }
}

/// Driver errors.
#[derive(Debug)]
pub enum Error<B> {
    /// The bus transport failed; its own error is wrapped inside.
    Bus(B),
    /// The identity register read as the wrapped value instead of [`ID`].
    WhoAmIError(u8),
    /// A register held a value the caller did not expect.
    UnexpectedValue,
}

/// The device driver.  It exclusively owns the bus handle the device is
/// wired to and a timer capability for start-up delays.
pub struct Iis2dlpc<B, T> {
    /// The bus the device is reached through.
    pub bus: B,
    /// The timer capability.
    pub tim: T,
}


/// Setting the operating mode and reading it back restores the mode, for
/// every named mode and whatever the two control registers held before:
/// the bytes written by `power_mode_set` decode to sub-fields that
/// reassemble into the mode that was set.
pub proof fn lemma_power_mode_roundtrip(m: Mode, b1: u8, b6: u8)
    ensures
        ({
            let w1 = (Ctrl1 {
                mode: m.spec_mode(),
                lp_mode: m.spec_lp_mode(),
                ..Ctrl1::spec_from_bits(b1)
            }).spec_to_bits();
            let w6 = (Ctrl6 {
                low_noise: m.spec_low_noise(),
                ..Ctrl6::spec_from_bits(b6)
            }).spec_to_bits();
            Mode::spec_from_code(
                Mode::spec_pack(
                    Ctrl1::spec_from_bits(w1).mode,
                    Ctrl1::spec_from_bits(w1).lp_mode,
                    Ctrl6::spec_from_bits(w6).low_noise,
                ),
            ) == m
        }),
{
    Ctrl1::lemma_bits_roundtrip(b1);
    Ctrl6::lemma_bits_roundtrip(b6);
    assert(m.spec_code() < 0x20);
    let c1 = Ctrl1 {
        mode: m.spec_mode(),
        lp_mode: m.spec_lp_mode(),
        ..Ctrl1::spec_from_bits(b1)
    };
    let c6 = Ctrl6 { low_noise: m.spec_low_noise(), ..Ctrl6::spec_from_bits(b6) };
    c1.lemma_fields_roundtrip();
    c6.lemma_fields_roundtrip();
    m.lemma_pack_unpack();
}

impl<B: BusOperation, T> Iis2dlpc<B, T> {
    /// Build a driver from a bus and a timer, taking ownership of both.
    pub fn from_bus(bus: B, tim: T) -> (r: Iis2dlpc<B, T>)
        ensures
            r.bus == bus,
            r.tim == tim,
    {
        Iis2dlpc { bus, tim }
    }

    /// Read a run of consecutive registers into `buf`, one byte per address
    /// starting at `reg`.
    pub fn read_from_register(&mut self, reg: u8, buf: &mut Vec<u8>) -> (r: Result<
        (),
        Error<B::Error>,
    >)
        requires
            reg + old(buf)@.len() <= 256,
        ensures
            same_regs(old(self).bus, final(self).bus),
            final(self).tim == old(self).tim,
            final(buf)@.len() == old(buf)@.len(),
            r is Ok ==> forall|i: int|
                0 <= i < old(buf)@.len() ==> final(buf)@[i] == old(self).bus.reg_at(
                    (reg + i) as u8,
                ),
            r is Err ==> (r matches Err(Error::Bus(_))),
    {
        match self.bus.read_from_register(reg, buf) {
            Ok(()) => Ok(()),
            Err(e) => Err(Error::Bus(e)),
        }
    }

    /// Write the bytes of `buf` to consecutive registers, one byte per
    /// address starting at `reg`.
    pub fn write_to_register(&mut self, reg: u8, buf: &Vec<u8>) -> (r: Result<
        (),
        Error<B::Error>,
    >)
        requires
            reg + buf@.len() <= 256,
        ensures
            final(self).tim == old(self).tim,
            forall|a: u8|
                !(reg <= a < reg + buf@.len()) ==> final(self).bus.reg_at(a) == old(
                    self,
                ).bus.reg_at(a),
            r is Ok ==> forall|a: u8|
                reg <= a < reg + buf@.len() ==> final(self).bus.reg_at(a) == buf@[a - reg],
            r is Err ==> (r matches Err(Error::Bus(_))),
    {
        match self.bus.write_to_register(reg, buf) {
            Ok(()) => Ok(()),
            Err(e) => Err(Error::Bus(e)),
        }
    }

    /// Read one register byte.
    pub(crate) fn read_reg(&mut self, reg: u8) -> (r: Result<u8, Error<B::Error>>)
        ensures
            same_regs(old(self).bus, final(self).bus),
            final(self).tim == old(self).tim,
            r matches Ok(v) ==> v == old(self).bus.reg_at(reg),
            r is Err ==> (r matches Err(Error::Bus(_))),
    {
        let mut buf: Vec<u8> = Vec::new();
        buf.push(0);
        match self.bus.read_from_register(reg, &mut buf) {
            Ok(()) => Ok(buf[0]),
            Err(e) => Err(Error::Bus(e)),
        }
    }

    /// Write one register byte.
    pub(crate) fn write_reg(&mut self, reg: u8, v: u8) -> (r: Result<(), Error<B::Error>>)
        ensures
            final(self).tim == old(self).tim,
            untouched_except(old(self).bus, final(self).bus, reg),
            r is Ok ==> reg_written(old(self).bus, final(self).bus, reg, v),
            r is Err ==> (r matches Err(Error::Bus(_))),
    {
        let mut buf: Vec<u8> = Vec::new();
        buf.push(v);
        match self.bus.write_to_register(reg, &buf) {
            Ok(()) => Ok(()),
            Err(e) => Err(Error::Bus(e)),
        }
    }

    /// Read a pair of consecutive registers as one little-endian 16-bit word.
    pub(crate) fn read_word(&mut self, reg: u8) -> (r: Result<u16, Error<B::Error>>)
        requires
            reg < 255,
        ensures
            same_regs(old(self).bus, final(self).bus),
            final(self).tim == old(self).tim,
            r matches Ok(w) ==> w == spec_word(
                old(self).bus.reg_at(reg),
                old(self).bus.reg_at((reg + 1) as u8),
            ),
            r is Err ==> (r matches Err(Error::Bus(_))),
    {
        let mut buf: Vec<u8> = Vec::new();
        buf.push(0);
        buf.push(0);
        match self.bus.read_from_register(reg, &mut buf) {
            Ok(()) => {
                let lo = buf[0];
                let hi = buf[1];
                Ok((lo as u16) + (hi as u16) * 256)
            },
            Err(e) => Err(Error::Bus(e)),
        }
    }

    /// Read the device identity register.  Every genuine device reads as
    /// [`ID`]; the caller is expected to check and treat anything else as a
    /// wrong or absent device.
    pub fn device_id_get(&mut self) -> (r: Result<u8, Error<B::Error>>)
        ensures
            same_regs(old(self).bus, final(self).bus),
            final(self).tim == old(self).tim,
            r matches Ok(v) ==> v == old(self).bus.reg_at(WHO_AM_I_ADDR),
            r is Err ==> (r matches Err(Error::Bus(_))),
    {
        self.read_reg(WHO_AM_I_ADDR)
    }

    /// Set the operating mode: the `mode` and `lp_mode` fields of control
    /// register 1 and the `low_noise` field of control register 6, leaving
    /// every other field of both registers unchanged.
    pub fn power_mode_set(&mut self, val: Mode) -> (r: Result<(), Error<B::Error>>)
        ensures
            final(self).tim == old(self).tim,
            untouched_except2(old(self).bus, final(self).bus, CTRL1_ADDR, CTRL6_ADDR),
            r is Ok ==> regs_written2(
                old(self).bus,
                final(self).bus,
                CTRL1_ADDR,
                (Ctrl1 {
                    mode: val.spec_mode(),
                    lp_mode: val.spec_lp_mode(),
                    ..Ctrl1::spec_from_bits(old(self).bus.reg_at(CTRL1_ADDR))
                }).spec_to_bits(),
                CTRL6_ADDR,
                (Ctrl6 {
                    low_noise: val.spec_low_noise(),
                    ..Ctrl6::spec_from_bits(old(self).bus.reg_at(CTRL6_ADDR))
                }).spec_to_bits(),
            ),
            r is Err ==> (r matches Err(Error::Bus(_))),
    {
        let b1 = match self.read_reg(CTRL1_ADDR) {
            Ok(v) => v,
            Err(e) => return Err(e),
        };
        let c1 = Ctrl1 { mode: val.mode(), lp_mode: val.lp_mode(), ..Ctrl1::from_bits(b1) };
        match self.write_reg(CTRL1_ADDR, c1.to_bits()) {
            Ok(()) => (),
            Err(e) => return Err(e),
        };
        let b6 = match self.read_reg(CTRL6_ADDR) {
            Ok(v) => v,
            Err(e) => return Err(e),
        };
        let c6 = Ctrl6 { low_noise: val.low_noise(), ..Ctrl6::from_bits(b6) };
        self.write_reg(CTRL6_ADDR, c6.to_bits())
    }

    /// Get the operating mode, reassembled from the `mode` and `lp_mode`
    /// fields of control register 1 and the `low_noise` field of control
    /// register 6; a reserved combination reads as the default mode.
    pub fn power_mode_get(&mut self) -> (r: Result<Mode, Error<B::Error>>)
        ensures
            same_regs(old(self).bus, final(self).bus),
            final(self).tim == old(self).tim,
            r matches Ok(m) ==> m == Mode::spec_from_code(
                Mode::spec_pack(
                    Ctrl1::spec_from_bits(old(self).bus.reg_at(CTRL1_ADDR)).mode,
                    Ctrl1::spec_from_bits(old(self).bus.reg_at(CTRL1_ADDR)).lp_mode,
                    Ctrl6::spec_from_bits(old(self).bus.reg_at(CTRL6_ADDR)).low_noise,
                ),
            ),
            r is Err ==> (r matches Err(Error::Bus(_))),
    {
        let b1 = match self.read_reg(CTRL1_ADDR) {
            Ok(v) => v,
            Err(e) => return Err(e),
        };
        let b6 = match self.read_reg(CTRL6_ADDR) {
            Ok(v) => v,
            Err(e) => return Err(e),
        };
        let c1 = Ctrl1::from_bits(b1);
        let c6 = Ctrl6::from_bits(b6);
        Ok(Mode::new(c1.mode, c1.lp_mode, c6.low_noise))
    }

    /// Set the output data rate: the `odr` field of control register 1 and
    /// the `slp_mode` field of control register 3, leaving every other
    /// field of both registers unchanged.
    pub fn data_rate_set(&mut self, val: Odr) -> (r: Result<(), Error<B::Error>>)
        ensures
            final(self).tim == old(self).tim,
            untouched_except2(old(self).bus, final(self).bus, CTRL1_ADDR, CTRL3_ADDR),
            r is Ok ==> regs_written2(
                old(self).bus,
                final(self).bus,
                CTRL1_ADDR,
                (Ctrl1 {
                    odr: val.spec_odr(),
                    ..Ctrl1::spec_from_bits(old(self).bus.reg_at(CTRL1_ADDR))
                }).spec_to_bits(),
                CTRL3_ADDR,
                (Ctrl3 {
                    slp_mode: val.spec_slp_mode(),
                    ..Ctrl3::spec_from_bits(old(self).bus.reg_at(CTRL3_ADDR))
                }).spec_to_bits(),
            ),
            r is Err ==> (r matches Err(Error::Bus(_))),
    {
        let b1 = match self.read_reg(CTRL1_ADDR) {
            Ok(v) => v,
            Err(e) => return Err(e),
        };
        let c1 = Ctrl1 { odr: val.odr(), ..Ctrl1::from_bits(b1) };
        match self.write_reg(CTRL1_ADDR, c1.to_bits()) {
            Ok(()) => (),
            Err(e) => return Err(e),
        };
        let b3 = match self.read_reg(CTRL3_ADDR) {
            Ok(v) => v,
            Err(e) => return Err(e),
        };
        let c3 = Ctrl3 { slp_mode: val.slp_mode(), ..Ctrl3::from_bits(b3) };
        self.write_reg(CTRL3_ADDR, c3.to_bits())
    }

    /// Get the output data rate, reassembled from the `odr` field of
    /// control register 1 and the `slp_mode` field of control register 3;
    /// a reserved combination reads as the accelerometer-off rate.
    pub fn data_rate_get(&mut self) -> (r: Result<Odr, Error<B::Error>>)
        ensures
            same_regs(old(self).bus, final(self).bus),
            final(self).tim == old(self).tim,
            r matches Ok(m) ==> m == Odr::spec_from_code(
                Odr::spec_pack(
                    Ctrl1::spec_from_bits(old(self).bus.reg_at(CTRL1_ADDR)).odr,
                    Ctrl3::spec_from_bits(old(self).bus.reg_at(CTRL3_ADDR)).slp_mode,
                ),
            ),
            r is Err ==> (r matches Err(Error::Bus(_))),
    {
        let b1 = match self.read_reg(CTRL1_ADDR) {
            Ok(v) => v,
            Err(e) => return Err(e),
        };
        let b3 = match self.read_reg(CTRL3_ADDR) {
            Ok(v) => v,
            Err(e) => return Err(e),
        };
        let c1 = Ctrl1::from_bits(b1);
        let c3 = Ctrl3::from_bits(b3);
        Ok(Odr::new(c1.odr, c3.slp_mode))
    }

    /// Read the raw temperature sample: the 12-bit two's-complement value
    /// held left-justified in the temperature output register pair.
    pub fn temperature_raw_get(&mut self) -> (r: Result<i16, Error<B::Error>>)
        ensures
            same_regs(old(self).bus, final(self).bus),
            final(self).tim == old(self).tim,
            r matches Ok(v) ==> v == OutT::spec_from_bits(
                spec_word(
                    old(self).bus.reg_at(OUT_T_L_ADDR),
                    old(self).bus.reg_at(OUT_T_H_ADDR),
                ),
            ).temp,
            r is Err ==> (r matches Err(Error::Bus(_))),
    {
        let w = match self.read_word(OUT_T_L_ADDR) {
            Ok(v) => v,
            Err(e) => return Err(e),
        };
        Ok(OutT::from_bits(w).temp)
    }

    /// Read the raw acceleration samples for the X, Y and Z axes: three
    /// 14-bit two's-complement values held left-justified in the output
    /// register pairs.
    pub fn acceleration_raw_get(&mut self) -> (r: Result<[i16; 3], Error<B::Error>>)
        ensures
            same_regs(old(self).bus, final(self).bus),
            final(self).tim == old(self).tim,
            r matches Ok(v) ==> v@ == seq![
                OutX::spec_from_bits(
                    spec_word(
                        old(self).bus.reg_at(OUT_X_L_ADDR),
                        old(self).bus.reg_at(OUT_X_H_ADDR),
                    ),
                ).x,
                OutY::spec_from_bits(
                    spec_word(
                        old(self).bus.reg_at(OUT_Y_L_ADDR),
                        old(self).bus.reg_at(OUT_Y_H_ADDR),
                    ),
                ).y,
                OutZ::spec_from_bits(
                    spec_word(
                        old(self).bus.reg_at(OUT_Z_L_ADDR),
                        old(self).bus.reg_at(OUT_Z_H_ADDR),
                    ),
                ).z,
            ],
            r is Err ==> (r matches Err(Error::Bus(_))),
    {
        let wx = match self.read_word(OUT_X_L_ADDR) {
            Ok(v) => v,
            Err(e) => return Err(e),
        };
        let wy = match self.read_word(OUT_Y_L_ADDR) {
            Ok(v) => v,
            Err(e) => return Err(e),
        };
        let wz = match self.read_word(OUT_Z_L_ADDR) {
            Ok(v) => v,
            Err(e) => return Err(e),
        };
        let out = [OutX::from_bits(wx).x, OutY::from_bits(wy).y, OutZ::from_bits(wz).z];
        proof {
            assert(out@ =~= seq![out[0], out[1], out[2]]);
        }
        Ok(out)
    }
}

} // verus!
