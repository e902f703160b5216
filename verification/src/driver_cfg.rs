//! Device configuration operations: data update, scale, self-test, filters,
//! serial interface and user offsets.
//!
//! Every setter is a read-modify-write of one register (or two, for the
//! filtering path), and its contract names the exact bytes the registers
//! hold afterwards; every getter is a pure read.

use vstd::prelude::*;

use crate::bus::{
    BusOperation, reg_written, regs_written2, same_regs, untouched_except, untouched_except2,
};
use crate::ctrl::{Ctrl2, Ctrl3, Ctrl6, Ctrl7};
use crate::driver::{Error, Iis2dlpc, PROPERTY_ENABLE};
use crate::enums::{BwFilt, CsPuDisc, DrdyPulsed, Fs, I2cDisable, Sim, St, UsrOffW};
use crate::modes::Fds;
use crate::offsets::{byte_of_i8, i8_of_byte, spec_byte_of_i8, spec_i8_of_byte};
use crate::regmap::{
    ALL_INT_SRC_ADDR, CTRL2_ADDR, CTRL3_ADDR, CTRL6_ADDR, CTRL7_ADDR, SIXD_SRC_ADDR,
    STATUS_ADDR, STATUS_DUP_ADDR, TAP_SRC_ADDR, WAKE_UP_SRC_ADDR, X_OFS_USR_ADDR,
    Y_OFS_USR_ADDR, Z_OFS_USR_ADDR,
};
use crate::sources::{AllIntSrc, AllSources, SixdSrc, Status, StatusDup, TapSrc, WakeUpSrc};

verus! {

impl<B: BusOperation, T> Iis2dlpc<B, T> {
    /// Set the block-data-update mode: when on, an output register pair holds one sample until both
    /// its bytes are read.
    ///
    /// Reads the register, replaces only the `bdu` field (truncated to
    /// its bit width) and writes the register back, preserving every other
    /// field.
    pub fn block_data_update_set(&mut self, val: u8) -> (r: Result<(), Error<B::Error>>)
        ensures
            final(self).tim == old(self).tim,
            untouched_except(old(self).bus, final(self).bus, CTRL2_ADDR),
            r is Ok ==> reg_written(
                old(self).bus,
                final(self).bus,
                CTRL2_ADDR,
                (Ctrl2 { bdu: val, ..Ctrl2::spec_from_bits(old(self).bus.reg_at(CTRL2_ADDR)) }).spec_to_bits(),
            ),
            r is Err ==> (r matches Err(Error::Bus(_))),
    {
        let b = match self.read_reg(CTRL2_ADDR) {
            Ok(v) => v,
            Err(e) => return Err(e),
        };
        let c = Ctrl2 { bdu: val, ..Ctrl2::from_bits(b) };
        self.write_reg(CTRL2_ADDR, c.to_bits())
    }

    /// Get the block-data-update mode from control register 2.
    pub fn block_data_update_get(&mut self) -> (r: Result<u8, Error<B::Error>>)
        ensures
            same_regs(old(self).bus, final(self).bus),
            final(self).tim == old(self).tim,
            r matches Ok(v) ==> v == Ctrl2::spec_from_bits(old(self).bus.reg_at(CTRL2_ADDR)).bdu,
            r is Err ==> (r matches Err(Error::Bus(_))),
    {
        let b = match self.read_reg(CTRL2_ADDR) {
            Ok(v) => v,
            Err(e) => return Err(e),
        };
        Ok(Ctrl2::from_bits(b).bdu)
    }

    /// Set the full-scale range of the accelerometer.
    ///
    /// Reads the register, replaces only the `fs` field with the code
    /// of `val` and writes the register back, preserving every other field.
    pub fn full_scale_set(&mut self, val: Fs) -> (r: Result<(), Error<B::Error>>)
        ensures
            final(self).tim == old(self).tim,
            untouched_except(old(self).bus, final(self).bus, CTRL6_ADDR),
            r is Ok ==> reg_written(
                old(self).bus,
                final(self).bus,
                CTRL6_ADDR,
                (Ctrl6 {
                    fs: val.spec_code(),
                    ..Ctrl6::spec_from_bits(old(self).bus.reg_at(CTRL6_ADDR))
                }).spec_to_bits(),
            ),
            r is Err ==> (r matches Err(Error::Bus(_))),
    {
        let b = match self.read_reg(CTRL6_ADDR) {
            Ok(v) => v,
            Err(e) => return Err(e),
        };
        let c = Ctrl6 { fs: val.code(), ..Ctrl6::from_bits(b) };
        self.write_reg(CTRL6_ADDR, c.to_bits())
    }

    /// Get the full-scale range of the accelerometer.
    ///
    /// A reserved code reads as the default variant.
    pub fn full_scale_get(&mut self) -> (r: Result<Fs, Error<B::Error>>)
        ensures
            same_regs(old(self).bus, final(self).bus),
            final(self).tim == old(self).tim,
            r matches Ok(v) ==> v == Fs::spec_from_code(
                Ctrl6::spec_from_bits(old(self).bus.reg_at(CTRL6_ADDR)).fs,
            ),
            r is Err ==> (r matches Err(Error::Bus(_))),
    {
        let b = match self.read_reg(CTRL6_ADDR) {
            Ok(v) => v,
            Err(e) => return Err(e),
        };
        Ok(Fs::from_code(Ctrl6::from_bits(b).fs))
    }

    /// Read the status register: data-ready and event flags.
    pub fn status_reg_get(&mut self) -> (r: Result<Status, Error<B::Error>>)
        ensures
            same_regs(old(self).bus, final(self).bus),
            final(self).tim == old(self).tim,
            r matches Ok(v) ==> v == Status::spec_from_bits(old(self).bus.reg_at(STATUS_ADDR)),
            r is Err ==> (r matches Err(Error::Bus(_))),
    {
        let b = match self.read_reg(STATUS_ADDR) {
            Ok(v) => v,
            Err(e) => return Err(e),
        };
        Ok(Status::from_bits(b))
    }

    /// Get the data-ready flag: 1 when a new sample is available on all three axes.
    pub fn flag_data_ready_get(&mut self) -> (r: Result<u8, Error<B::Error>>)
        ensures
            same_regs(old(self).bus, final(self).bus),
            final(self).tim == old(self).tim,
            r matches Ok(v) ==> v == Status::spec_from_bits(old(self).bus.reg_at(STATUS_ADDR)).drdy,
            r is Err ==> (r matches Err(Error::Bus(_))),
    {
        let b = match self.read_reg(STATUS_ADDR) {
            Ok(v) => v,
            Err(e) => return Err(e),
        };
        Ok(Status::from_bits(b).drdy)
    }

    /// Read every status and event-source register in one call: the status
    /// duplicate, wake-up, tap, 6D and all-interrupt source registers, in
    /// that order.
    pub fn all_sources_get(&mut self) -> (r: Result<AllSources, Error<B::Error>>)
        ensures
            same_regs(old(self).bus, final(self).bus),
            final(self).tim == old(self).tim,
            r matches Ok(s) ==> s == (AllSources {
                status_dup: StatusDup::spec_from_bits(old(self).bus.reg_at(STATUS_DUP_ADDR)),
                wake_up_src: WakeUpSrc::spec_from_bits(old(self).bus.reg_at(WAKE_UP_SRC_ADDR)),
                tap_src: TapSrc::spec_from_bits(old(self).bus.reg_at(TAP_SRC_ADDR)),
                sixd_src: SixdSrc::spec_from_bits(old(self).bus.reg_at(SIXD_SRC_ADDR)),
                all_int_src: AllIntSrc::spec_from_bits(old(self).bus.reg_at(ALL_INT_SRC_ADDR)),
            }),
            r is Err ==> (r matches Err(Error::Bus(_))),
    {
        let b_dup = match self.read_reg(STATUS_DUP_ADDR) {
            Ok(v) => v,
            Err(e) => return Err(e),
        };
        let b_wu = match self.read_reg(WAKE_UP_SRC_ADDR) {
            Ok(v) => v,
            Err(e) => return Err(e),
        };
        let b_tap = match self.read_reg(TAP_SRC_ADDR) {
            Ok(v) => v,
            Err(e) => return Err(e),
        };
        let b_6d = match self.read_reg(SIXD_SRC_ADDR) {
            Ok(v) => v,
            Err(e) => return Err(e),
        };
        let b_all = match self.read_reg(ALL_INT_SRC_ADDR) {
            Ok(v) => v,
            Err(e) => return Err(e),
        };
        Ok(AllSources {
            status_dup: StatusDup::from_bits(b_dup),
            wake_up_src: WakeUpSrc::from_bits(b_wu),
            tap_src: TapSrc::from_bits(b_tap),
            sixd_src: SixdSrc::from_bits(b_6d),
            all_int_src: AllIntSrc::from_bits(b_all),
        })
    }

    /// Set the X-axis user offset correction; its weight is set by `offset_weight_set`.
    ///
    /// The register holds nothing else, so it is written outright.
    pub fn usr_offset_x_set(&mut self, val: i8) -> (r: Result<(), Error<B::Error>>)
        ensures
            final(self).tim == old(self).tim,
            untouched_except(old(self).bus, final(self).bus, X_OFS_USR_ADDR),
            r is Ok ==> reg_written(old(self).bus, final(self).bus, X_OFS_USR_ADDR, spec_byte_of_i8(val)),
            r is Err ==> (r matches Err(Error::Bus(_))),
    {
        self.write_reg(X_OFS_USR_ADDR, byte_of_i8(val))
    }

    /// Get the X-axis user offset correction.
    pub fn usr_offset_x_get(&mut self) -> (r: Result<i8, Error<B::Error>>)
        ensures
            same_regs(old(self).bus, final(self).bus),
            final(self).tim == old(self).tim,
            r matches Ok(v) ==> v == spec_i8_of_byte(old(self).bus.reg_at(X_OFS_USR_ADDR)),
            r is Err ==> (r matches Err(Error::Bus(_))),
    {
        let b = match self.read_reg(X_OFS_USR_ADDR) {
            Ok(v) => v,
            Err(e) => return Err(e),
        };
        Ok(i8_of_byte(b))
    }

    /// Set the Y-axis user offset correction; its weight is set by `offset_weight_set`.
    ///
    /// The register holds nothing else, so it is written outright.
    pub fn usr_offset_y_set(&mut self, val: i8) -> (r: Result<(), Error<B::Error>>)
        ensures
            final(self).tim == old(self).tim,
            untouched_except(old(self).bus, final(self).bus, Y_OFS_USR_ADDR),
            r is Ok ==> reg_written(old(self).bus, final(self).bus, Y_OFS_USR_ADDR, spec_byte_of_i8(val)),
            r is Err ==> (r matches Err(Error::Bus(_))),
    {
        self.write_reg(Y_OFS_USR_ADDR, byte_of_i8(val))
    }

    /// Get the Y-axis user offset correction.
    pub fn usr_offset_y_get(&mut self) -> (r: Result<i8, Error<B::Error>>)
        ensures
            same_regs(old(self).bus, final(self).bus),
            final(self).tim == old(self).tim,
            r matches Ok(v) ==> v == spec_i8_of_byte(old(self).bus.reg_at(Y_OFS_USR_ADDR)),
            r is Err ==> (r matches Err(Error::Bus(_))),
    {
        let b = match self.read_reg(Y_OFS_USR_ADDR) {
            Ok(v) => v,
            Err(e) => return Err(e),
        };
        Ok(i8_of_byte(b))
    }

    /// Set the Z-axis user offset correction; its weight is set by `offset_weight_set`.
    ///
    /// The register holds nothing else, so it is written outright.
    pub fn usr_offset_z_set(&mut self, val: i8) -> (r: Result<(), Error<B::Error>>)
        ensures
            final(self).tim == old(self).tim,
            untouched_except(old(self).bus, final(self).bus, Z_OFS_USR_ADDR),
            r is Ok ==> reg_written(old(self).bus, final(self).bus, Z_OFS_USR_ADDR, spec_byte_of_i8(val)),
            r is Err ==> (r matches Err(Error::Bus(_))),
    {
        self.write_reg(Z_OFS_USR_ADDR, byte_of_i8(val))
    }

    /// Get the Z-axis user offset correction.
    pub fn usr_offset_z_get(&mut self) -> (r: Result<i8, Error<B::Error>>)
        ensures
            same_regs(old(self).bus, final(self).bus),
            final(self).tim == old(self).tim,
            r matches Ok(v) ==> v == spec_i8_of_byte(old(self).bus.reg_at(Z_OFS_USR_ADDR)),
            r is Err ==> (r matches Err(Error::Bus(_))),
    {
        let b = match self.read_reg(Z_OFS_USR_ADDR) {
            Ok(v) => v,
            Err(e) => return Err(e),
        };
        Ok(i8_of_byte(b))
    }

    /// Set the weight of the user offset registers.
    ///
    /// Reads the register, replaces only the `usr_off_w` field with the code
    /// of `val` and writes the register back, preserving every other field.
    pub fn offset_weight_set(&mut self, val: UsrOffW) -> (r: Result<(), Error<B::Error>>)
        ensures
            final(self).tim == old(self).tim,
            untouched_except(old(self).bus, final(self).bus, CTRL7_ADDR),
            r is Ok ==> reg_written(
                old(self).bus,
                final(self).bus,
                CTRL7_ADDR,
                (Ctrl7 {
                    usr_off_w: val.spec_code(),
                    ..Ctrl7::spec_from_bits(old(self).bus.reg_at(CTRL7_ADDR))
                }).spec_to_bits(),
            ),
            r is Err ==> (r matches Err(Error::Bus(_))),
    {
        let b = match self.read_reg(CTRL7_ADDR) {
            Ok(v) => v,
            Err(e) => return Err(e),
        };
        let c = Ctrl7 { usr_off_w: val.code(), ..Ctrl7::from_bits(b) };
        self.write_reg(CTRL7_ADDR, c.to_bits())
    }

    /// Get the weight of the user offset registers.
    ///
    /// A reserved code reads as the default variant.
    pub fn offset_weight_get(&mut self) -> (r: Result<UsrOffW, Error<B::Error>>)
        ensures
            same_regs(old(self).bus, final(self).bus),
            final(self).tim == old(self).tim,
            r matches Ok(v) ==> v == UsrOffW::spec_from_code(
                Ctrl7::spec_from_bits(old(self).bus.reg_at(CTRL7_ADDR)).usr_off_w,
            ),
            r is Err ==> (r matches Err(Error::Bus(_))),
    {
        let b = match self.read_reg(CTRL7_ADDR) {
            Ok(v) => v,
            Err(e) => return Err(e),
        };
        Ok(UsrOffW::from_code(Ctrl7::from_bits(b).usr_off_w))
    }

    /// Enable automatic register-address increment during multi-byte access.
    ///
    /// Reads the register, replaces only the `if_add_inc` field (truncated to
    /// its bit width) and writes the register back, preserving every other
    /// field.
    pub fn auto_increment_set(&mut self, val: u8) -> (r: Result<(), Error<B::Error>>)
        ensures
            final(self).tim == old(self).tim,
            untouched_except(old(self).bus, final(self).bus, CTRL2_ADDR),
            r is Ok ==> reg_written(
                old(self).bus,
                final(self).bus,
                CTRL2_ADDR,
                (Ctrl2 { if_add_inc: val, ..Ctrl2::spec_from_bits(old(self).bus.reg_at(CTRL2_ADDR)) }).spec_to_bits(),
            ),
            r is Err ==> (r matches Err(Error::Bus(_))),
    {
        let b = match self.read_reg(CTRL2_ADDR) {
            Ok(v) => v,
            Err(e) => return Err(e),
        };
        let c = Ctrl2 { if_add_inc: val, ..Ctrl2::from_bits(b) };
        self.write_reg(CTRL2_ADDR, c.to_bits())
    }

    /// Get the automatic register-address increment configuration.
    pub fn auto_increment_get(&mut self) -> (r: Result<u8, Error<B::Error>>)
        ensures
            same_regs(old(self).bus, final(self).bus),
            final(self).tim == old(self).tim,
            r matches Ok(v) ==> v == Ctrl2::spec_from_bits(old(self).bus.reg_at(CTRL2_ADDR)).if_add_inc,
            r is Err ==> (r matches Err(Error::Bus(_))),
    {
        let b = match self.read_reg(CTRL2_ADDR) {
            Ok(v) => v,
            Err(e) => return Err(e),
        };
        Ok(Ctrl2::from_bits(b).if_add_inc)
    }

    /// Start a software reset, restoring the default values of the user registers.
    ///
    /// Reads the register, turns on only the `soft_reset` field and writes the
    /// register back, preserving every other field.
    pub fn reset_set(&mut self) -> (r: Result<(), Error<B::Error>>)
        ensures
            final(self).tim == old(self).tim,
            untouched_except(old(self).bus, final(self).bus, CTRL2_ADDR),
            r is Ok ==> reg_written(
                old(self).bus,
                final(self).bus,
                CTRL2_ADDR,
                (Ctrl2 {
                    soft_reset: PROPERTY_ENABLE,
                    ..Ctrl2::spec_from_bits(old(self).bus.reg_at(CTRL2_ADDR))
                }).spec_to_bits(),
            ),
            r is Err ==> (r matches Err(Error::Bus(_))),
    {
        let b = match self.read_reg(CTRL2_ADDR) {
            Ok(v) => v,
            Err(e) => return Err(e),
        };
        let c = Ctrl2 { soft_reset: PROPERTY_ENABLE, ..Ctrl2::from_bits(b) };
        self.write_reg(CTRL2_ADDR, c.to_bits())
    }

    /// Get the software reset state: 1 while the reset is in progress.
    pub fn reset_get(&mut self) -> (r: Result<u8, Error<B::Error>>)
        ensures
            same_regs(old(self).bus, final(self).bus),
            final(self).tim == old(self).tim,
            r matches Ok(v) ==> v == Ctrl2::spec_from_bits(old(self).bus.reg_at(CTRL2_ADDR)).soft_reset,
            r is Err ==> (r matches Err(Error::Bus(_))),
    {
        let b = match self.read_reg(CTRL2_ADDR) {
            Ok(v) => v,
            Err(e) => return Err(e),
        };
        Ok(Ctrl2::from_bits(b).soft_reset)
    }

    /// Start a reboot of the memory content, reloading the calibration parameters.
    ///
    /// Reads the register, turns on only the `boot` field and writes the
    /// register back, preserving every other field.
    pub fn boot_set(&mut self) -> (r: Result<(), Error<B::Error>>)
        ensures
            final(self).tim == old(self).tim,
            untouched_except(old(self).bus, final(self).bus, CTRL2_ADDR),
            r is Ok ==> reg_written(
                old(self).bus,
                final(self).bus,
                CTRL2_ADDR,
                (Ctrl2 {
                    boot: PROPERTY_ENABLE,
                    ..Ctrl2::spec_from_bits(old(self).bus.reg_at(CTRL2_ADDR))
                }).spec_to_bits(),
            ),
            r is Err ==> (r matches Err(Error::Bus(_))),
    {
        let b = match self.read_reg(CTRL2_ADDR) {
            Ok(v) => v,
            Err(e) => return Err(e),
        };
        let c = Ctrl2 { boot: PROPERTY_ENABLE, ..Ctrl2::from_bits(b) };
        self.write_reg(CTRL2_ADDR, c.to_bits())
    }

    /// Get the reboot state: 1 while the reboot is in progress.
    pub fn boot_get(&mut self) -> (r: Result<u8, Error<B::Error>>)
        ensures
            same_regs(old(self).bus, final(self).bus),
            final(self).tim == old(self).tim,
            r matches Ok(v) ==> v == Ctrl2::spec_from_bits(old(self).bus.reg_at(CTRL2_ADDR)).boot,
            r is Err ==> (r matches Err(Error::Bus(_))),
    {
        let b = match self.read_reg(CTRL2_ADDR) {
            Ok(v) => v,
            Err(e) => return Err(e),
        };
        Ok(Ctrl2::from_bits(b).boot)
    }

    /// Set the self-test mode of the sensor.
    ///
    /// Reads the register, replaces only the `st` field with the code
    /// of `val` and writes the register back, preserving every other field.
    pub fn self_test_set(&mut self, val: St) -> (r: Result<(), Error<B::Error>>)
        ensures
            final(self).tim == old(self).tim,
            untouched_except(old(self).bus, final(self).bus, CTRL3_ADDR),
            r is Ok ==> reg_written(
                old(self).bus,
                final(self).bus,
                CTRL3_ADDR,
                (Ctrl3 {
                    st: val.spec_code(),
                    ..Ctrl3::spec_from_bits(old(self).bus.reg_at(CTRL3_ADDR))
                }).spec_to_bits(),
            ),
            r is Err ==> (r matches Err(Error::Bus(_))),
    {
        let b = match self.read_reg(CTRL3_ADDR) {
            Ok(v) => v,
            Err(e) => return Err(e),
        };
        let c = Ctrl3 { st: val.code(), ..Ctrl3::from_bits(b) };
        self.write_reg(CTRL3_ADDR, c.to_bits())
    }

    /// Get the self-test mode of the sensor.
    ///
    /// A reserved code reads as the default variant.
    pub fn self_test_get(&mut self) -> (r: Result<St, Error<B::Error>>)
        ensures
            same_regs(old(self).bus, final(self).bus),
            final(self).tim == old(self).tim,
            r matches Ok(v) ==> v == St::spec_from_code(
                Ctrl3::spec_from_bits(old(self).bus.reg_at(CTRL3_ADDR)).st,
            ),
            r is Err ==> (r matches Err(Error::Bus(_))),
    {
        let b = match self.read_reg(CTRL3_ADDR) {
            Ok(v) => v,
            Err(e) => return Err(e),
        };
        Ok(St::from_code(Ctrl3::from_bits(b).st))
    }

    /// Set the data-ready interrupt mode, latched or pulsed.
    ///
    /// Reads the register, replaces only the `drdy_pulsed` field with the code
    /// of `val` and writes the register back, preserving every other field.
    pub fn data_ready_mode_set(&mut self, val: DrdyPulsed) -> (r: Result<(), Error<B::Error>>)
        ensures
            final(self).tim == old(self).tim,
            untouched_except(old(self).bus, final(self).bus, CTRL7_ADDR),
            r is Ok ==> reg_written(
                old(self).bus,
                final(self).bus,
                CTRL7_ADDR,
                (Ctrl7 {
                    drdy_pulsed: val.spec_code(),
                    ..Ctrl7::spec_from_bits(old(self).bus.reg_at(CTRL7_ADDR))
                }).spec_to_bits(),
            ),
            r is Err ==> (r matches Err(Error::Bus(_))),
    {
        let b = match self.read_reg(CTRL7_ADDR) {
            Ok(v) => v,
            Err(e) => return Err(e),
        };
        let c = Ctrl7 { drdy_pulsed: val.code(), ..Ctrl7::from_bits(b) };
        self.write_reg(CTRL7_ADDR, c.to_bits())
    }

    /// Get the data-ready interrupt mode.
    ///
    /// A reserved code reads as the default variant.
    pub fn data_ready_mode_get(&mut self) -> (r: Result<DrdyPulsed, Error<B::Error>>)
        ensures
            same_regs(old(self).bus, final(self).bus),
            final(self).tim == old(self).tim,
            r matches Ok(v) ==> v == DrdyPulsed::spec_from_code(
                Ctrl7::spec_from_bits(old(self).bus.reg_at(CTRL7_ADDR)).drdy_pulsed,
            ),
            r is Err ==> (r matches Err(Error::Bus(_))),
    {
        let b = match self.read_reg(CTRL7_ADDR) {
            Ok(v) => v,
            Err(e) => return Err(e),
        };
        Ok(DrdyPulsed::from_code(Ctrl7::from_bits(b).drdy_pulsed))
    }

    /// Set the filtering path for the outputs: the filter select of control register 6 and the
    /// user-offset switch of control register 7.
    ///
    /// Both registers are read, the named fields replaced, and both written
    /// back, preserving every other field of each.  If the transport fails
    /// part-way, the registers already written keep their new values.
    pub fn filter_path_set(&mut self, val: Fds) -> (r: Result<(), Error<B::Error>>)
        ensures
            final(self).tim == old(self).tim,
            untouched_except2(old(self).bus, final(self).bus, CTRL6_ADDR, CTRL7_ADDR),
            r is Ok ==> regs_written2(
                old(self).bus,
                final(self).bus,
                CTRL6_ADDR,
                (Ctrl6 {
                    fds: val.spec_fds(),
                    ..Ctrl6::spec_from_bits(old(self).bus.reg_at(CTRL6_ADDR))
                }).spec_to_bits(),
                CTRL7_ADDR,
                (Ctrl7 {
                    usr_off_on_out: val.spec_usr_off_on_out(),
                    ..Ctrl7::spec_from_bits(old(self).bus.reg_at(CTRL7_ADDR))
                }).spec_to_bits(),
            ),
            r is Err ==> (r matches Err(Error::Bus(_))),
    {
        let b1 = match self.read_reg(CTRL6_ADDR) {
            Ok(v) => v,
            Err(e) => return Err(e),
        };
        let c1 = Ctrl6 { fds: val.fds(), ..Ctrl6::from_bits(b1) };
        match self.write_reg(CTRL6_ADDR, c1.to_bits()) {
            Ok(()) => (),
            Err(e) => return Err(e),
        };
        let b2 = match self.read_reg(CTRL7_ADDR) {
            Ok(v) => v,
            Err(e) => return Err(e),
        };
        let c2 = Ctrl7 { usr_off_on_out: val.usr_off_on_out(), ..Ctrl7::from_bits(b2) };
        self.write_reg(CTRL7_ADDR, c2.to_bits())
    }

    /// Get the filtering path for the outputs.
    ///
    /// A reserved combination reads as the default variant.
    pub fn filter_path_get(&mut self) -> (r: Result<Fds, Error<B::Error>>)
        ensures
            same_regs(old(self).bus, final(self).bus),
            final(self).tim == old(self).tim,
            r matches Ok(v) ==> v == Fds::spec_from_code(
                Fds::spec_pack(
                    Ctrl6::spec_from_bits(old(self).bus.reg_at(CTRL6_ADDR)).fds,
                    Ctrl7::spec_from_bits(old(self).bus.reg_at(CTRL7_ADDR)).usr_off_on_out,
                ),
            ),
            r is Err ==> (r matches Err(Error::Bus(_))),
    {
        let b1 = match self.read_reg(CTRL6_ADDR) {
            Ok(v) => v,
            Err(e) => return Err(e),
        };
        let b2 = match self.read_reg(CTRL7_ADDR) {
            Ok(v) => v,
            Err(e) => return Err(e),
        };
        Ok(Fds::new(Ctrl6::from_bits(b1).fds, Ctrl7::from_bits(b2).usr_off_on_out))
    }

    /// Set the cutoff frequency of the output filter.
    ///
    /// Reads the register, replaces only the `bw_filt` field with the code
    /// of `val` and writes the register back, preserving every other field.
    pub fn filter_bandwidth_set(&mut self, val: BwFilt) -> (r: Result<(), Error<B::Error>>)
        ensures
            final(self).tim == old(self).tim,
            untouched_except(old(self).bus, final(self).bus, CTRL6_ADDR),
            r is Ok ==> reg_written(
                old(self).bus,
                final(self).bus,
                CTRL6_ADDR,
                (Ctrl6 {
                    bw_filt: val.spec_code(),
                    ..Ctrl6::spec_from_bits(old(self).bus.reg_at(CTRL6_ADDR))
                }).spec_to_bits(),
            ),
            r is Err ==> (r matches Err(Error::Bus(_))),
    {
        let b = match self.read_reg(CTRL6_ADDR) {
            Ok(v) => v,
            Err(e) => return Err(e),
        };
        let c = Ctrl6 { bw_filt: val.code(), ..Ctrl6::from_bits(b) };
        self.write_reg(CTRL6_ADDR, c.to_bits())
    }

    /// Get the cutoff frequency of the output filter.
    ///
    /// A reserved code reads as the default variant.
    pub fn filter_bandwidth_get(&mut self) -> (r: Result<BwFilt, Error<B::Error>>)
        ensures
            same_regs(old(self).bus, final(self).bus),
            final(self).tim == old(self).tim,
            r matches Ok(v) ==> v == BwFilt::spec_from_code(
                Ctrl6::spec_from_bits(old(self).bus.reg_at(CTRL6_ADDR)).bw_filt,
            ),
            r is Err ==> (r matches Err(Error::Bus(_))),
    {
        let b = match self.read_reg(CTRL6_ADDR) {
            Ok(v) => v,
            Err(e) => return Err(e),
        };
        Ok(BwFilt::from_code(Ctrl6::from_bits(b).bw_filt))
    }

    /// Enable the high-pass filter reference mode.
    ///
    /// Reads the register, replaces only the `hp_ref_mode` field (truncated to
    /// its bit width) and writes the register back, preserving every other
    /// field.
    pub fn reference_mode_set(&mut self, val: u8) -> (r: Result<(), Error<B::Error>>)
        ensures
            final(self).tim == old(self).tim,
            untouched_except(old(self).bus, final(self).bus, CTRL7_ADDR),
            r is Ok ==> reg_written(
                old(self).bus,
                final(self).bus,
                CTRL7_ADDR,
                (Ctrl7 {
                    hp_ref_mode: val,
                    ..Ctrl7::spec_from_bits(old(self).bus.reg_at(CTRL7_ADDR))
                }).spec_to_bits(),
            ),
            r is Err ==> (r matches Err(Error::Bus(_))),
    {
        let b = match self.read_reg(CTRL7_ADDR) {
            Ok(v) => v,
            Err(e) => return Err(e),
        };
        let c = Ctrl7 { hp_ref_mode: val, ..Ctrl7::from_bits(b) };
        self.write_reg(CTRL7_ADDR, c.to_bits())
    }

    /// Get the high-pass filter reference mode.
    pub fn reference_mode_get(&mut self) -> (r: Result<u8, Error<B::Error>>)
        ensures
            same_regs(old(self).bus, final(self).bus),
            final(self).tim == old(self).tim,
            r matches Ok(v) ==> v == Ctrl7::spec_from_bits(old(self).bus.reg_at(CTRL7_ADDR)).hp_ref_mode,
            r is Err ==> (r matches Err(Error::Bus(_))),
    {
        let b = match self.read_reg(CTRL7_ADDR) {
            Ok(v) => v,
            Err(e) => return Err(e),
        };
        Ok(Ctrl7::from_bits(b).hp_ref_mode)
    }

    /// Set the SPI serial interface mode, 4-wire or 3-wire.
    ///
    /// Reads the register, replaces only the `sim` field with the code
    /// of `val` and writes the register back, preserving every other field.
    pub fn spi_mode_set(&mut self, val: Sim) -> (r: Result<(), Error<B::Error>>)
        ensures
            final(self).tim == old(self).tim,
            untouched_except(old(self).bus, final(self).bus, CTRL2_ADDR),
            r is Ok ==> reg_written(
                old(self).bus,
                final(self).bus,
                CTRL2_ADDR,
                (Ctrl2 {
                    sim: val.spec_code(),
                    ..Ctrl2::spec_from_bits(old(self).bus.reg_at(CTRL2_ADDR))
                }).spec_to_bits(),
            ),
            r is Err ==> (r matches Err(Error::Bus(_))),
    {
        let b = match self.read_reg(CTRL2_ADDR) {
            Ok(v) => v,
            Err(e) => return Err(e),
        };
        let c = Ctrl2 { sim: val.code(), ..Ctrl2::from_bits(b) };
        self.write_reg(CTRL2_ADDR, c.to_bits())
    }

    /// Get the SPI serial interface mode.
    ///
    /// A reserved code reads as the default variant.
    pub fn spi_mode_get(&mut self) -> (r: Result<Sim, Error<B::Error>>)
        ensures
            same_regs(old(self).bus, final(self).bus),
            final(self).tim == old(self).tim,
            r matches Ok(v) ==> v == Sim::spec_from_code(
                Ctrl2::spec_from_bits(old(self).bus.reg_at(CTRL2_ADDR)).sim,
            ),
            r is Err ==> (r matches Err(Error::Bus(_))),
    {
        let b = match self.read_reg(CTRL2_ADDR) {
            Ok(v) => v,
            Err(e) => return Err(e),
        };
        Ok(Sim::from_code(Ctrl2::from_bits(b).sim))
    }

    /// Enable or disable the I2C interface.
    ///
    /// Reads the register, replaces only the `i2c_disable` field with the code
    /// of `val` and writes the register back, preserving every other field.
    pub fn i2c_interface_set(&mut self, val: I2cDisable) -> (r: Result<(), Error<B::Error>>)
        ensures
            final(self).tim == old(self).tim,
            untouched_except(old(self).bus, final(self).bus, CTRL2_ADDR),
            r is Ok ==> reg_written(
                old(self).bus,
                final(self).bus,
                CTRL2_ADDR,
                (Ctrl2 {
                    i2c_disable: val.spec_code(),
                    ..Ctrl2::spec_from_bits(old(self).bus.reg_at(CTRL2_ADDR))
                }).spec_to_bits(),
            ),
            r is Err ==> (r matches Err(Error::Bus(_))),
    {
        let b = match self.read_reg(CTRL2_ADDR) {
            Ok(v) => v,
            Err(e) => return Err(e),
        };
        let c = Ctrl2 { i2c_disable: val.code(), ..Ctrl2::from_bits(b) };
        self.write_reg(CTRL2_ADDR, c.to_bits())
    }

    /// Get the I2C interface state.
    ///
    /// A reserved code reads as the default variant.
    pub fn i2c_interface_get(&mut self) -> (r: Result<I2cDisable, Error<B::Error>>)
        ensures
            same_regs(old(self).bus, final(self).bus),
            final(self).tim == old(self).tim,
            r matches Ok(v) ==> v == I2cDisable::spec_from_code(
                Ctrl2::spec_from_bits(old(self).bus.reg_at(CTRL2_ADDR)).i2c_disable,
            ),
            r is Err ==> (r matches Err(Error::Bus(_))),
    {
        let b = match self.read_reg(CTRL2_ADDR) {
            Ok(v) => v,
            Err(e) => return Err(e),
        };
        Ok(I2cDisable::from_code(Ctrl2::from_bits(b).i2c_disable))
    }

    /// Connect or disconnect the pull-up on the CS pin.
    ///
    /// Reads the register, replaces only the `cs_pu_disc` field with the code
    /// of `val` and writes the register back, preserving every other field.
    pub fn cs_mode_set(&mut self, val: CsPuDisc) -> (r: Result<(), Error<B::Error>>)
        ensures
            final(self).tim == old(self).tim,
            untouched_except(old(self).bus, final(self).bus, CTRL2_ADDR),
            r is Ok ==> reg_written(
                old(self).bus,
                final(self).bus,
                CTRL2_ADDR,
                (Ctrl2 {
                    cs_pu_disc: val.spec_code(),
                    ..Ctrl2::spec_from_bits(old(self).bus.reg_at(CTRL2_ADDR))
                }).spec_to_bits(),
            ),
            r is Err ==> (r matches Err(Error::Bus(_))),
    {
        let b = match self.read_reg(CTRL2_ADDR) {
            Ok(v) => v,
            Err(e) => return Err(e),
        };
        let c = Ctrl2 { cs_pu_disc: val.code(), ..Ctrl2::from_bits(b) };
        self.write_reg(CTRL2_ADDR, c.to_bits())
    }

    /// Get the CS pin pull-up configuration.
    ///
    /// A reserved code reads as the default variant.
    pub fn cs_mode_get(&mut self) -> (r: Result<CsPuDisc, Error<B::Error>>)
        ensures
            same_regs(old(self).bus, final(self).bus),
            final(self).tim == old(self).tim,
            r matches Ok(v) ==> v == CsPuDisc::spec_from_code(
                Ctrl2::spec_from_bits(old(self).bus.reg_at(CTRL2_ADDR)).cs_pu_disc,
            ),
            r is Err ==> (r matches Err(Error::Bus(_))),
    {
        let b = match self.read_reg(CTRL2_ADDR) {
            Ok(v) => v,
            Err(e) => return Err(e),
        };
        Ok(CsPuDisc::from_code(Ctrl2::from_bits(b).cs_pu_disc))
    }
}

} // verus!
