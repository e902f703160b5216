//! Event-detection operations: wake-up, activity, tap, 6D orientation and
//! free-fall configuration.
//!
//! Every setter is a read-modify-write of one register (or two, for the
//! activity mode and the free-fall duration, which span two registers), and
//! its contract names the exact bytes the registers hold afterwards; every
//! getter is a pure read.

use vstd::prelude::*;

use crate::bus::{
    BusOperation, reg_written, regs_written2, same_regs, untouched_except, untouched_except2,
};
use crate::config::{FreeFall, IntDur, TapThsX, TapThsY, TapThsZ, WakeUpDur, WakeUpThs};
use crate::ctrl::Ctrl7;
use crate::driver::{Error, Iis2dlpc};
use crate::enums::{FfThs, LpassOn6d, SingleDoubleTap, TapPrior, UsrOffOnWu};
use crate::modes::SleepOn;
use crate::regmap::{
    CTRL7_ADDR, FREE_FALL_ADDR, INT_DUR_ADDR, SIXD_SRC_ADDR, TAP_SRC_ADDR, TAP_THS_X_ADDR,
    TAP_THS_Y_ADDR, TAP_THS_Z_ADDR, WAKE_UP_DUR_ADDR, WAKE_UP_THS_ADDR,
};
use crate::sources::{SixdSrc, TapSrc};

verus! {


/// Splitting a six-bit free-fall duration across the two registers and
/// reassembling it restores the duration, whatever the two registers held
/// before: the top bit goes to the wake-up duration register, the low five
/// bits to the free-fall register, and the read side recombines them.
pub proof fn lemma_ff_dur_roundtrip(val: u8, bd: u8, bf: u8)
    requires
        val < 64,
    ensures
        ({
            let wd = (WakeUpDur {
                ff_dur: val / 32 % 2,
                ..WakeUpDur::spec_from_bits(bd)
            }).spec_to_bits();
            let wf = (FreeFall { ff_dur: val % 32, ..FreeFall::spec_from_bits(bf) }).spec_to_bits();
            WakeUpDur::spec_from_bits(wd).ff_dur * 32 + FreeFall::spec_from_bits(wf).ff_dur == val
        }),
{
    WakeUpDur::lemma_bits_roundtrip(bd);
    FreeFall::lemma_bits_roundtrip(bf);
    let cd = WakeUpDur { ff_dur: val / 32 % 2, ..WakeUpDur::spec_from_bits(bd) };
    let cf = FreeFall { ff_dur: val % 32, ..FreeFall::spec_from_bits(bf) };
    cd.lemma_fields_roundtrip();
    cf.lemma_fields_roundtrip();
}

impl<B: BusOperation, T> Iis2dlpc<B, T> {
    /// Set the wake-up threshold, 1 LSB = full scale / 64.
    ///
    /// Reads the register, replaces only the `wk_ths` field (truncated to
    /// its bit width) and writes the register back, preserving every other
    /// field.
    pub fn wkup_threshold_set(&mut self, val: u8) -> (r: Result<(), Error<B::Error>>)
        ensures
            final(self).tim == old(self).tim,
            untouched_except(old(self).bus, final(self).bus, WAKE_UP_THS_ADDR),
            r is Ok ==> reg_written(
                old(self).bus,
                final(self).bus,
                WAKE_UP_THS_ADDR,
                (WakeUpThs {
                    wk_ths: val,
                    ..WakeUpThs::spec_from_bits(old(self).bus.reg_at(WAKE_UP_THS_ADDR))
                }).spec_to_bits(),
            ),
            r is Err ==> (r matches Err(Error::Bus(_))),
    {
        let b = match self.read_reg(WAKE_UP_THS_ADDR) {
            Ok(v) => v,
            Err(e) => return Err(e),
        };
        let c = WakeUpThs { wk_ths: val, ..WakeUpThs::from_bits(b) };
        self.write_reg(WAKE_UP_THS_ADDR, c.to_bits())
    }

    /// Get the wake-up threshold.
    pub fn wkup_threshold_get(&mut self) -> (r: Result<u8, Error<B::Error>>)
        ensures
            same_regs(old(self).bus, final(self).bus),
            final(self).tim == old(self).tim,
            r matches Ok(v) ==> v == WakeUpThs::spec_from_bits(old(self).bus.reg_at(WAKE_UP_THS_ADDR)).wk_ths,
            r is Err ==> (r matches Err(Error::Bus(_))),
    {
        let b = match self.read_reg(WAKE_UP_THS_ADDR) {
            Ok(v) => v,
            Err(e) => return Err(e),
        };
        Ok(WakeUpThs::from_bits(b).wk_ths)
    }

    /// Set the wake-up duration, 1 LSB = 1 / ODR.
    ///
    /// Reads the register, replaces only the `wake_dur` field (truncated to
    /// its bit width) and writes the register back, preserving every other
    /// field.
    pub fn wkup_dur_set(&mut self, val: u8) -> (r: Result<(), Error<B::Error>>)
        ensures
            final(self).tim == old(self).tim,
            untouched_except(old(self).bus, final(self).bus, WAKE_UP_DUR_ADDR),
            r is Ok ==> reg_written(
                old(self).bus,
                final(self).bus,
                WAKE_UP_DUR_ADDR,
                (WakeUpDur {
                    wake_dur: val,
                    ..WakeUpDur::spec_from_bits(old(self).bus.reg_at(WAKE_UP_DUR_ADDR))
                }).spec_to_bits(),
            ),
            r is Err ==> (r matches Err(Error::Bus(_))),
    {
        let b = match self.read_reg(WAKE_UP_DUR_ADDR) {
            Ok(v) => v,
            Err(e) => return Err(e),
        };
        let c = WakeUpDur { wake_dur: val, ..WakeUpDur::from_bits(b) };
        self.write_reg(WAKE_UP_DUR_ADDR, c.to_bits())
    }

    /// Get the wake-up duration.
    pub fn wkup_dur_get(&mut self) -> (r: Result<u8, Error<B::Error>>)
        ensures
            same_regs(old(self).bus, final(self).bus),
            final(self).tim == old(self).tim,
            r matches Ok(v) ==> v == WakeUpDur::spec_from_bits(old(self).bus.reg_at(WAKE_UP_DUR_ADDR)).wake_dur,
            r is Err ==> (r matches Err(Error::Bus(_))),
    {
        let b = match self.read_reg(WAKE_UP_DUR_ADDR) {
            Ok(v) => v,
            Err(e) => return Err(e),
        };
        Ok(WakeUpDur::from_bits(b).wake_dur)
    }

    /// Set the data fed to the wake-up function, high-pass filtered or user-offset corrected.
    ///
    /// Reads the register, replaces only the `usr_off_on_wu` field with the code
    /// of `val` and writes the register back, preserving every other field.
    pub fn wkup_feed_data_set(&mut self, val: UsrOffOnWu) -> (r: Result<(), Error<B::Error>>)
        ensures
            final(self).tim == old(self).tim,
            untouched_except(old(self).bus, final(self).bus, CTRL7_ADDR),
            r is Ok ==> reg_written(
                old(self).bus,
                final(self).bus,
                CTRL7_ADDR,
                (Ctrl7 {
                    usr_off_on_wu: val.spec_code(),
                    ..Ctrl7::spec_from_bits(old(self).bus.reg_at(CTRL7_ADDR))
                }).spec_to_bits(),
            ),
            r is Err ==> (r matches Err(Error::Bus(_))),
    {
        let b = match self.read_reg(CTRL7_ADDR) {
            Ok(v) => v,
            Err(e) => return Err(e),
        };
        let c = Ctrl7 { usr_off_on_wu: val.code(), ..Ctrl7::from_bits(b) };
        self.write_reg(CTRL7_ADDR, c.to_bits())
    }

    /// Get the data fed to the wake-up function.
    ///
    /// A reserved code reads as the default variant.
    pub fn wkup_feed_data_get(&mut self) -> (r: Result<UsrOffOnWu, Error<B::Error>>)
        ensures
            same_regs(old(self).bus, final(self).bus),
            final(self).tim == old(self).tim,
            r matches Ok(v) ==> v == UsrOffOnWu::spec_from_code(
                Ctrl7::spec_from_bits(old(self).bus.reg_at(CTRL7_ADDR)).usr_off_on_wu,
            ),
            r is Err ==> (r matches Err(Error::Bus(_))),
    {
        let b = match self.read_reg(CTRL7_ADDR) {
            Ok(v) => v,
            Err(e) => return Err(e),
        };
        Ok(UsrOffOnWu::from_code(Ctrl7::from_bits(b).usr_off_on_wu))
    }

    /// Set the activity-detection mode: the sleep enable of the wake-up threshold register and the
    /// stationary enable of the wake-up duration register.
    ///
    /// Both registers are read, the named fields replaced, and both written
    /// back, preserving every other field of each.  If the transport fails
    /// part-way, the registers already written keep their new values.
    pub fn act_mode_set(&mut self, val: SleepOn) -> (r: Result<(), Error<B::Error>>)
        ensures
            final(self).tim == old(self).tim,
            untouched_except2(old(self).bus, final(self).bus, WAKE_UP_THS_ADDR, WAKE_UP_DUR_ADDR),
            r is Ok ==> regs_written2(
                old(self).bus,
                final(self).bus,
                WAKE_UP_THS_ADDR,
                (WakeUpThs {
                    sleep_on: val.spec_sleep_on(),
                    ..WakeUpThs::spec_from_bits(old(self).bus.reg_at(WAKE_UP_THS_ADDR))
                }).spec_to_bits(),
                WAKE_UP_DUR_ADDR,
                (WakeUpDur {
                    stationary: val.spec_stationary(),
                    ..WakeUpDur::spec_from_bits(old(self).bus.reg_at(WAKE_UP_DUR_ADDR))
                }).spec_to_bits(),
            ),
            r is Err ==> (r matches Err(Error::Bus(_))),
    {
        let b1 = match self.read_reg(WAKE_UP_THS_ADDR) {
            Ok(v) => v,
            Err(e) => return Err(e),
        };
        let b2 = match self.read_reg(WAKE_UP_DUR_ADDR) {
            Ok(v) => v,
            Err(e) => return Err(e),
        };
        let c1 = WakeUpThs { sleep_on: val.sleep_on(), ..WakeUpThs::from_bits(b1) };
        let c2 = WakeUpDur { stationary: val.stationary(), ..WakeUpDur::from_bits(b2) };
        match self.write_reg(WAKE_UP_THS_ADDR, c1.to_bits()) {
            Ok(()) => (),
            Err(e) => return Err(e),
        };
        self.write_reg(WAKE_UP_DUR_ADDR, c2.to_bits())
    }

    /// Get the activity-detection mode.
    ///
    /// A reserved combination reads as the default variant.
    pub fn act_mode_get(&mut self) -> (r: Result<SleepOn, Error<B::Error>>)
        ensures
            same_regs(old(self).bus, final(self).bus),
            final(self).tim == old(self).tim,
            r matches Ok(v) ==> v == SleepOn::spec_from_code(
                SleepOn::spec_pack(
                    WakeUpThs::spec_from_bits(old(self).bus.reg_at(WAKE_UP_THS_ADDR)).sleep_on,
                    WakeUpDur::spec_from_bits(old(self).bus.reg_at(WAKE_UP_DUR_ADDR)).stationary,
                ),
            ),
            r is Err ==> (r matches Err(Error::Bus(_))),
    {
        let b1 = match self.read_reg(WAKE_UP_THS_ADDR) {
            Ok(v) => v,
            Err(e) => return Err(e),
        };
        let b2 = match self.read_reg(WAKE_UP_DUR_ADDR) {
            Ok(v) => v,
            Err(e) => return Err(e),
        };
        Ok(SleepOn::new(WakeUpThs::from_bits(b1).sleep_on, WakeUpDur::from_bits(b2).stationary))
    }

    /// Set the duration to enter sleep, 1 LSB = 512 / ODR.
    ///
    /// Reads the register, replaces only the `sleep_dur` field (truncated to
    /// its bit width) and writes the register back, preserving every other
    /// field.
    pub fn act_sleep_dur_set(&mut self, val: u8) -> (r: Result<(), Error<B::Error>>)
        ensures
            final(self).tim == old(self).tim,
            untouched_except(old(self).bus, final(self).bus, WAKE_UP_DUR_ADDR),
            r is Ok ==> reg_written(
                old(self).bus,
                final(self).bus,
                WAKE_UP_DUR_ADDR,
                (WakeUpDur {
                    sleep_dur: val,
                    ..WakeUpDur::spec_from_bits(old(self).bus.reg_at(WAKE_UP_DUR_ADDR))
                }).spec_to_bits(),
            ),
            r is Err ==> (r matches Err(Error::Bus(_))),
    {
        let b = match self.read_reg(WAKE_UP_DUR_ADDR) {
            Ok(v) => v,
            Err(e) => return Err(e),
        };
        let c = WakeUpDur { sleep_dur: val, ..WakeUpDur::from_bits(b) };
        self.write_reg(WAKE_UP_DUR_ADDR, c.to_bits())
    }

    /// Get the duration to enter sleep.
    pub fn act_sleep_dur_get(&mut self) -> (r: Result<u8, Error<B::Error>>)
        ensures
            same_regs(old(self).bus, final(self).bus),
            final(self).tim == old(self).tim,
            r matches Ok(v) ==> v == WakeUpDur::spec_from_bits(old(self).bus.reg_at(WAKE_UP_DUR_ADDR)).sleep_dur,
            r is Err ==> (r matches Err(Error::Bus(_))),
    {
        let b = match self.read_reg(WAKE_UP_DUR_ADDR) {
            Ok(v) => v,
            Err(e) => return Err(e),
        };
        Ok(WakeUpDur::from_bits(b).sleep_dur)
    }

    /// Set the tap-recognition threshold on the X-axis.
    ///
    /// Reads the register, replaces only the `tap_thsx` field (truncated to
    /// its bit width) and writes the register back, preserving every other
    /// field.
    pub fn tap_threshold_x_set(&mut self, val: u8) -> (r: Result<(), Error<B::Error>>)
        ensures
            final(self).tim == old(self).tim,
            untouched_except(old(self).bus, final(self).bus, TAP_THS_X_ADDR),
            r is Ok ==> reg_written(
                old(self).bus,
                final(self).bus,
                TAP_THS_X_ADDR,
                (TapThsX {
                    tap_thsx: val,
                    ..TapThsX::spec_from_bits(old(self).bus.reg_at(TAP_THS_X_ADDR))
                }).spec_to_bits(),
            ),
            r is Err ==> (r matches Err(Error::Bus(_))),
    {
        let b = match self.read_reg(TAP_THS_X_ADDR) {
            Ok(v) => v,
            Err(e) => return Err(e),
        };
        let c = TapThsX { tap_thsx: val, ..TapThsX::from_bits(b) };
        self.write_reg(TAP_THS_X_ADDR, c.to_bits())
    }

    /// Get the tap-recognition threshold on the X-axis.
    pub fn tap_threshold_x_get(&mut self) -> (r: Result<u8, Error<B::Error>>)
        ensures
            same_regs(old(self).bus, final(self).bus),
            final(self).tim == old(self).tim,
            r matches Ok(v) ==> v == TapThsX::spec_from_bits(old(self).bus.reg_at(TAP_THS_X_ADDR)).tap_thsx,
            r is Err ==> (r matches Err(Error::Bus(_))),
    {
        let b = match self.read_reg(TAP_THS_X_ADDR) {
            Ok(v) => v,
            Err(e) => return Err(e),
        };
        Ok(TapThsX::from_bits(b).tap_thsx)
    }

    /// Set the tap-recognition threshold on the Y-axis.
    ///
    /// Reads the register, replaces only the `tap_thsy` field (truncated to
    /// its bit width) and writes the register back, preserving every other
    /// field.
    pub fn tap_threshold_y_set(&mut self, val: u8) -> (r: Result<(), Error<B::Error>>)
        ensures
            final(self).tim == old(self).tim,
            untouched_except(old(self).bus, final(self).bus, TAP_THS_Y_ADDR),
            r is Ok ==> reg_written(
                old(self).bus,
                final(self).bus,
                TAP_THS_Y_ADDR,
                (TapThsY {
                    tap_thsy: val,
                    ..TapThsY::spec_from_bits(old(self).bus.reg_at(TAP_THS_Y_ADDR))
                }).spec_to_bits(),
            ),
            r is Err ==> (r matches Err(Error::Bus(_))),
    {
        let b = match self.read_reg(TAP_THS_Y_ADDR) {
            Ok(v) => v,
            Err(e) => return Err(e),
        };
        let c = TapThsY { tap_thsy: val, ..TapThsY::from_bits(b) };
        self.write_reg(TAP_THS_Y_ADDR, c.to_bits())
    }

    /// Get the tap-recognition threshold on the Y-axis.
    pub fn tap_threshold_y_get(&mut self) -> (r: Result<u8, Error<B::Error>>)
        ensures
            same_regs(old(self).bus, final(self).bus),
            final(self).tim == old(self).tim,
            r matches Ok(v) ==> v == TapThsY::spec_from_bits(old(self).bus.reg_at(TAP_THS_Y_ADDR)).tap_thsy,
            r is Err ==> (r matches Err(Error::Bus(_))),
    {
        let b = match self.read_reg(TAP_THS_Y_ADDR) {
            Ok(v) => v,
            Err(e) => return Err(e),
        };
        Ok(TapThsY::from_bits(b).tap_thsy)
    }

    /// Set the axis priority for tap detection.
    ///
    /// Reads the register, replaces only the `tap_prior` field with the code
    /// of `val` and writes the register back, preserving every other field.
    pub fn tap_axis_priority_set(&mut self, val: TapPrior) -> (r: Result<(), Error<B::Error>>)
        ensures
            final(self).tim == old(self).tim,
            untouched_except(old(self).bus, final(self).bus, TAP_THS_Y_ADDR),
            r is Ok ==> reg_written(
                old(self).bus,
                final(self).bus,
                TAP_THS_Y_ADDR,
                (TapThsY {
                    tap_prior: val.spec_code(),
                    ..TapThsY::spec_from_bits(old(self).bus.reg_at(TAP_THS_Y_ADDR))
                }).spec_to_bits(),
            ),
            r is Err ==> (r matches Err(Error::Bus(_))),
    {
        let b = match self.read_reg(TAP_THS_Y_ADDR) {
            Ok(v) => v,
            Err(e) => return Err(e),
        };
        let c = TapThsY { tap_prior: val.code(), ..TapThsY::from_bits(b) };
        self.write_reg(TAP_THS_Y_ADDR, c.to_bits())
    }

    /// Get the axis priority for tap detection.
    ///
    /// A reserved code reads as the default variant.
    pub fn tap_axis_priority_get(&mut self) -> (r: Result<TapPrior, Error<B::Error>>)
        ensures
            same_regs(old(self).bus, final(self).bus),
            final(self).tim == old(self).tim,
            r matches Ok(v) ==> v == TapPrior::spec_from_code(
                TapThsY::spec_from_bits(old(self).bus.reg_at(TAP_THS_Y_ADDR)).tap_prior,
            ),
            r is Err ==> (r matches Err(Error::Bus(_))),
    {
        let b = match self.read_reg(TAP_THS_Y_ADDR) {
            Ok(v) => v,
            Err(e) => return Err(e),
        };
        Ok(TapPrior::from_code(TapThsY::from_bits(b).tap_prior))
    }

    /// Set the tap-recognition threshold on the Z-axis.
    ///
    /// Reads the register, replaces only the `tap_thsz` field (truncated to
    /// its bit width) and writes the register back, preserving every other
    /// field.
    pub fn tap_threshold_z_set(&mut self, val: u8) -> (r: Result<(), Error<B::Error>>)
        ensures
            final(self).tim == old(self).tim,
            untouched_except(old(self).bus, final(self).bus, TAP_THS_Z_ADDR),
            r is Ok ==> reg_written(
                old(self).bus,
                final(self).bus,
                TAP_THS_Z_ADDR,
                (TapThsZ {
                    tap_thsz: val,
                    ..TapThsZ::spec_from_bits(old(self).bus.reg_at(TAP_THS_Z_ADDR))
                }).spec_to_bits(),
            ),
            r is Err ==> (r matches Err(Error::Bus(_))),
    {
        let b = match self.read_reg(TAP_THS_Z_ADDR) {
            Ok(v) => v,
            Err(e) => return Err(e),
        };
        let c = TapThsZ { tap_thsz: val, ..TapThsZ::from_bits(b) };
        self.write_reg(TAP_THS_Z_ADDR, c.to_bits())
    }

    /// Get the tap-recognition threshold on the Z-axis.
    pub fn tap_threshold_z_get(&mut self) -> (r: Result<u8, Error<B::Error>>)
        ensures
            same_regs(old(self).bus, final(self).bus),
            final(self).tim == old(self).tim,
            r matches Ok(v) ==> v == TapThsZ::spec_from_bits(old(self).bus.reg_at(TAP_THS_Z_ADDR)).tap_thsz,
            r is Err ==> (r matches Err(Error::Bus(_))),
    {
        let b = match self.read_reg(TAP_THS_Z_ADDR) {
            Ok(v) => v,
            Err(e) => return Err(e),
        };
        Ok(TapThsZ::from_bits(b).tap_thsz)
    }

    /// Enable tap recognition on the Z-axis.
    ///
    /// Reads the register, replaces only the `tap_z_en` field (truncated to
    /// its bit width) and writes the register back, preserving every other
    /// field.
    pub fn tap_detection_on_z_set(&mut self, val: u8) -> (r: Result<(), Error<B::Error>>)
        ensures
            final(self).tim == old(self).tim,
            untouched_except(old(self).bus, final(self).bus, TAP_THS_Z_ADDR),
            r is Ok ==> reg_written(
                old(self).bus,
                final(self).bus,
                TAP_THS_Z_ADDR,
                (TapThsZ {
                    tap_z_en: val,
                    ..TapThsZ::spec_from_bits(old(self).bus.reg_at(TAP_THS_Z_ADDR))
                }).spec_to_bits(),
            ),
            r is Err ==> (r matches Err(Error::Bus(_))),
    {
        let b = match self.read_reg(TAP_THS_Z_ADDR) {
            Ok(v) => v,
            Err(e) => return Err(e),
        };
        let c = TapThsZ { tap_z_en: val, ..TapThsZ::from_bits(b) };
        self.write_reg(TAP_THS_Z_ADDR, c.to_bits())
    }

    /// Get whether tap recognition is enabled on the Z-axis.
    pub fn tap_detection_on_z_get(&mut self) -> (r: Result<u8, Error<B::Error>>)
        ensures
            same_regs(old(self).bus, final(self).bus),
            final(self).tim == old(self).tim,
            r matches Ok(v) ==> v == TapThsZ::spec_from_bits(old(self).bus.reg_at(TAP_THS_Z_ADDR)).tap_z_en,
            r is Err ==> (r matches Err(Error::Bus(_))),
    {
        let b = match self.read_reg(TAP_THS_Z_ADDR) {
            Ok(v) => v,
            Err(e) => return Err(e),
        };
        Ok(TapThsZ::from_bits(b).tap_z_en)
    }

    /// Enable tap recognition on the Y-axis.
    ///
    /// Reads the register, replaces only the `tap_y_en` field (truncated to
    /// its bit width) and writes the register back, preserving every other
    /// field.
    pub fn tap_detection_on_y_set(&mut self, val: u8) -> (r: Result<(), Error<B::Error>>)
        ensures
            final(self).tim == old(self).tim,
            untouched_except(old(self).bus, final(self).bus, TAP_THS_Z_ADDR),
            r is Ok ==> reg_written(
                old(self).bus,
                final(self).bus,
                TAP_THS_Z_ADDR,
                (TapThsZ {
                    tap_y_en: val,
                    ..TapThsZ::spec_from_bits(old(self).bus.reg_at(TAP_THS_Z_ADDR))
                }).spec_to_bits(),
            ),
            r is Err ==> (r matches Err(Error::Bus(_))),
    {
        let b = match self.read_reg(TAP_THS_Z_ADDR) {
            Ok(v) => v,
            Err(e) => return Err(e),
        };
        let c = TapThsZ { tap_y_en: val, ..TapThsZ::from_bits(b) };
        self.write_reg(TAP_THS_Z_ADDR, c.to_bits())
    }

    /// Get whether tap recognition is enabled on the Y-axis.
    pub fn tap_detection_on_y_get(&mut self) -> (r: Result<u8, Error<B::Error>>)
        ensures
            same_regs(old(self).bus, final(self).bus),
            final(self).tim == old(self).tim,
            r matches Ok(v) ==> v == TapThsZ::spec_from_bits(old(self).bus.reg_at(TAP_THS_Z_ADDR)).tap_y_en,
            r is Err ==> (r matches Err(Error::Bus(_))),
    {
        let b = match self.read_reg(TAP_THS_Z_ADDR) {
            Ok(v) => v,
            Err(e) => return Err(e),
        };
        Ok(TapThsZ::from_bits(b).tap_y_en)
    }

    /// Enable tap recognition on the X-axis.
    ///
    /// Reads the register, replaces only the `tap_x_en` field (truncated to
    /// its bit width) and writes the register back, preserving every other
    /// field.
    pub fn tap_detection_on_x_set(&mut self, val: u8) -> (r: Result<(), Error<B::Error>>)
        ensures
            final(self).tim == old(self).tim,
            untouched_except(old(self).bus, final(self).bus, TAP_THS_Z_ADDR),
            r is Ok ==> reg_written(
                old(self).bus,
                final(self).bus,
                TAP_THS_Z_ADDR,
                (TapThsZ {
                    tap_x_en: val,
                    ..TapThsZ::spec_from_bits(old(self).bus.reg_at(TAP_THS_Z_ADDR))
                }).spec_to_bits(),
            ),
            r is Err ==> (r matches Err(Error::Bus(_))),
    {
        let b = match self.read_reg(TAP_THS_Z_ADDR) {
            Ok(v) => v,
            Err(e) => return Err(e),
        };
        let c = TapThsZ { tap_x_en: val, ..TapThsZ::from_bits(b) };
        self.write_reg(TAP_THS_Z_ADDR, c.to_bits())
    }

    /// Get whether tap recognition is enabled on the X-axis.
    pub fn tap_detection_on_x_get(&mut self) -> (r: Result<u8, Error<B::Error>>)
        ensures
            same_regs(old(self).bus, final(self).bus),
            final(self).tim == old(self).tim,
            r matches Ok(v) ==> v == TapThsZ::spec_from_bits(old(self).bus.reg_at(TAP_THS_Z_ADDR)).tap_x_en,
            r is Err ==> (r matches Err(Error::Bus(_))),
    {
        let b = match self.read_reg(TAP_THS_Z_ADDR) {
            Ok(v) => v,
            Err(e) => return Err(e),
        };
        Ok(TapThsZ::from_bits(b).tap_x_en)
    }

    /// Set the maximum over-threshold time for a tap; zero means 4 / ODR, otherwise 1 LSB = 8 / ODR.
    ///
    /// Reads the register, replaces only the `shock` field (truncated to
    /// its bit width) and writes the register back, preserving every other
    /// field.
    pub fn tap_shock_set(&mut self, val: u8) -> (r: Result<(), Error<B::Error>>)
        ensures
            final(self).tim == old(self).tim,
            untouched_except(old(self).bus, final(self).bus, INT_DUR_ADDR),
            r is Ok ==> reg_written(
                old(self).bus,
                final(self).bus,
                INT_DUR_ADDR,
                (IntDur { shock: val, ..IntDur::spec_from_bits(old(self).bus.reg_at(INT_DUR_ADDR)) }).spec_to_bits(),
            ),
            r is Err ==> (r matches Err(Error::Bus(_))),
    {
        let b = match self.read_reg(INT_DUR_ADDR) {
            Ok(v) => v,
            Err(e) => return Err(e),
        };
        let c = IntDur { shock: val, ..IntDur::from_bits(b) };
        self.write_reg(INT_DUR_ADDR, c.to_bits())
    }

    /// Get the maximum over-threshold time for a tap.
    pub fn tap_shock_get(&mut self) -> (r: Result<u8, Error<B::Error>>)
        ensures
            same_regs(old(self).bus, final(self).bus),
            final(self).tim == old(self).tim,
            r matches Ok(v) ==> v == IntDur::spec_from_bits(old(self).bus.reg_at(INT_DUR_ADDR)).shock,
            r is Err ==> (r matches Err(Error::Bus(_))),
    {
        let b = match self.read_reg(INT_DUR_ADDR) {
            Ok(v) => v,
            Err(e) => return Err(e),
        };
        Ok(IntDur::from_bits(b).shock)
    }

    /// Set the quiet time after a tap; zero means 2 / ODR, otherwise 1 LSB = 4 / ODR.
    ///
    /// Reads the register, replaces only the `quiet` field (truncated to
    /// its bit width) and writes the register back, preserving every other
    /// field.
    pub fn tap_quiet_set(&mut self, val: u8) -> (r: Result<(), Error<B::Error>>)
        ensures
            final(self).tim == old(self).tim,
            untouched_except(old(self).bus, final(self).bus, INT_DUR_ADDR),
            r is Ok ==> reg_written(
                old(self).bus,
                final(self).bus,
                INT_DUR_ADDR,
                (IntDur { quiet: val, ..IntDur::spec_from_bits(old(self).bus.reg_at(INT_DUR_ADDR)) }).spec_to_bits(),
            ),
            r is Err ==> (r matches Err(Error::Bus(_))),
    {
        let b = match self.read_reg(INT_DUR_ADDR) {
            Ok(v) => v,
            Err(e) => return Err(e),
        };
        let c = IntDur { quiet: val, ..IntDur::from_bits(b) };
        self.write_reg(INT_DUR_ADDR, c.to_bits())
    }

    /// Get the quiet time after a tap.
    pub fn tap_quiet_get(&mut self) -> (r: Result<u8, Error<B::Error>>)
        ensures
            same_regs(old(self).bus, final(self).bus),
            final(self).tim == old(self).tim,
            r matches Ok(v) ==> v == IntDur::spec_from_bits(old(self).bus.reg_at(INT_DUR_ADDR)).quiet,
            r is Err ==> (r matches Err(Error::Bus(_))),
    {
        let b = match self.read_reg(INT_DUR_ADDR) {
            Ok(v) => v,
            Err(e) => return Err(e),
        };
        Ok(IntDur::from_bits(b).quiet)
    }

    /// Set the maximum time between the taps of a double tap; zero means 16 / ODR, otherwise 1 LSB = 32 / ODR.
    ///
    /// Reads the register, replaces only the `latency` field (truncated to
    /// its bit width) and writes the register back, preserving every other
    /// field.
    pub fn tap_dur_set(&mut self, val: u8) -> (r: Result<(), Error<B::Error>>)
        ensures
            final(self).tim == old(self).tim,
            untouched_except(old(self).bus, final(self).bus, INT_DUR_ADDR),
            r is Ok ==> reg_written(
                old(self).bus,
                final(self).bus,
                INT_DUR_ADDR,
                (IntDur {
                    latency: val,
                    ..IntDur::spec_from_bits(old(self).bus.reg_at(INT_DUR_ADDR))
                }).spec_to_bits(),
            ),
            r is Err ==> (r matches Err(Error::Bus(_))),
    {
        let b = match self.read_reg(INT_DUR_ADDR) {
            Ok(v) => v,
            Err(e) => return Err(e),
        };
        let c = IntDur { latency: val, ..IntDur::from_bits(b) };
        self.write_reg(INT_DUR_ADDR, c.to_bits())
    }

    /// Get the maximum time between the taps of a double tap.
    pub fn tap_dur_get(&mut self) -> (r: Result<u8, Error<B::Error>>)
        ensures
            same_regs(old(self).bus, final(self).bus),
            final(self).tim == old(self).tim,
            r matches Ok(v) ==> v == IntDur::spec_from_bits(old(self).bus.reg_at(INT_DUR_ADDR)).latency,
            r is Err ==> (r matches Err(Error::Bus(_))),
    {
        let b = match self.read_reg(INT_DUR_ADDR) {
            Ok(v) => v,
            Err(e) => return Err(e),
        };
        Ok(IntDur::from_bits(b).latency)
    }

    /// Set the tap events to detect, single only or single and double.
    ///
    /// Reads the register, replaces only the `single_double_tap` field with the code
    /// of `val` and writes the register back, preserving every other field.
    pub fn tap_mode_set(&mut self, val: SingleDoubleTap) -> (r: Result<(), Error<B::Error>>)
        ensures
            final(self).tim == old(self).tim,
            untouched_except(old(self).bus, final(self).bus, WAKE_UP_THS_ADDR),
            r is Ok ==> reg_written(
                old(self).bus,
                final(self).bus,
                WAKE_UP_THS_ADDR,
                (WakeUpThs {
                    single_double_tap: val.spec_code(),
                    ..WakeUpThs::spec_from_bits(old(self).bus.reg_at(WAKE_UP_THS_ADDR))
                }).spec_to_bits(),
            ),
            r is Err ==> (r matches Err(Error::Bus(_))),
    {
        let b = match self.read_reg(WAKE_UP_THS_ADDR) {
            Ok(v) => v,
            Err(e) => return Err(e),
        };
        let c = WakeUpThs { single_double_tap: val.code(), ..WakeUpThs::from_bits(b) };
        self.write_reg(WAKE_UP_THS_ADDR, c.to_bits())
    }

    /// Get the tap events to detect.
    ///
    /// A reserved code reads as the default variant.
    pub fn tap_mode_get(&mut self) -> (r: Result<SingleDoubleTap, Error<B::Error>>)
        ensures
            same_regs(old(self).bus, final(self).bus),
            final(self).tim == old(self).tim,
            r matches Ok(v) ==> v == SingleDoubleTap::spec_from_code(
                WakeUpThs::spec_from_bits(old(self).bus.reg_at(WAKE_UP_THS_ADDR)).single_double_tap,
            ),
            r is Err ==> (r matches Err(Error::Bus(_))),
    {
        let b = match self.read_reg(WAKE_UP_THS_ADDR) {
            Ok(v) => v,
            Err(e) => return Err(e),
        };
        Ok(SingleDoubleTap::from_code(WakeUpThs::from_bits(b).single_double_tap))
    }

    /// Read the tap source register: which axis was tapped and the tap kind.
    pub fn tap_src_get(&mut self) -> (r: Result<TapSrc, Error<B::Error>>)
        ensures
            same_regs(old(self).bus, final(self).bus),
            final(self).tim == old(self).tim,
            r matches Ok(v) ==> v == TapSrc::spec_from_bits(old(self).bus.reg_at(TAP_SRC_ADDR)),
            r is Err ==> (r matches Err(Error::Bus(_))),
    {
        let b = match self.read_reg(TAP_SRC_ADDR) {
            Ok(v) => v,
            Err(e) => return Err(e),
        };
        Ok(TapSrc::from_bits(b))
    }

    /// Set the threshold for 4D/6D orientation detection.
    ///
    /// Reads the register, replaces only the `six_d_ths` field (truncated to
    /// its bit width) and writes the register back, preserving every other
    /// field.
    pub fn sixd_threshold_set(&mut self, val: u8) -> (r: Result<(), Error<B::Error>>)
        ensures
            final(self).tim == old(self).tim,
            untouched_except(old(self).bus, final(self).bus, TAP_THS_X_ADDR),
            r is Ok ==> reg_written(
                old(self).bus,
                final(self).bus,
                TAP_THS_X_ADDR,
                (TapThsX {
                    six_d_ths: val,
                    ..TapThsX::spec_from_bits(old(self).bus.reg_at(TAP_THS_X_ADDR))
                }).spec_to_bits(),
            ),
            r is Err ==> (r matches Err(Error::Bus(_))),
    {
        let b = match self.read_reg(TAP_THS_X_ADDR) {
            Ok(v) => v,
            Err(e) => return Err(e),
        };
        let c = TapThsX { six_d_ths: val, ..TapThsX::from_bits(b) };
        self.write_reg(TAP_THS_X_ADDR, c.to_bits())
    }

    /// Get the threshold for 4D/6D orientation detection.
    pub fn sixd_threshold_get(&mut self) -> (r: Result<u8, Error<B::Error>>)
        ensures
            same_regs(old(self).bus, final(self).bus),
            final(self).tim == old(self).tim,
            r matches Ok(v) ==> v == TapThsX::spec_from_bits(old(self).bus.reg_at(TAP_THS_X_ADDR)).six_d_ths,
            r is Err ==> (r matches Err(Error::Bus(_))),
    {
        let b = match self.read_reg(TAP_THS_X_ADDR) {
            Ok(v) => v,
            Err(e) => return Err(e),
        };
        Ok(TapThsX::from_bits(b).six_d_ths)
    }

    /// Enable 4D orientation detection.
    ///
    /// Reads the register, replaces only the `four_d_en` field (truncated to
    /// its bit width) and writes the register back, preserving every other
    /// field.
    pub fn fourd_mode_set(&mut self, val: u8) -> (r: Result<(), Error<B::Error>>)
        ensures
            final(self).tim == old(self).tim,
            untouched_except(old(self).bus, final(self).bus, TAP_THS_X_ADDR),
            r is Ok ==> reg_written(
                old(self).bus,
                final(self).bus,
                TAP_THS_X_ADDR,
                (TapThsX {
                    four_d_en: val,
                    ..TapThsX::spec_from_bits(old(self).bus.reg_at(TAP_THS_X_ADDR))
                }).spec_to_bits(),
            ),
            r is Err ==> (r matches Err(Error::Bus(_))),
    {
        let b = match self.read_reg(TAP_THS_X_ADDR) {
            Ok(v) => v,
            Err(e) => return Err(e),
        };
        let c = TapThsX { four_d_en: val, ..TapThsX::from_bits(b) };
        self.write_reg(TAP_THS_X_ADDR, c.to_bits())
    }

    /// Get whether 4D orientation detection is enabled.
    pub fn fourd_mode_get(&mut self) -> (r: Result<u8, Error<B::Error>>)
        ensures
            same_regs(old(self).bus, final(self).bus),
            final(self).tim == old(self).tim,
            r matches Ok(v) ==> v == TapThsX::spec_from_bits(old(self).bus.reg_at(TAP_THS_X_ADDR)).four_d_en,
            r is Err ==> (r matches Err(Error::Bus(_))),
    {
        let b = match self.read_reg(TAP_THS_X_ADDR) {
            Ok(v) => v,
            Err(e) => return Err(e),
        };
        Ok(TapThsX::from_bits(b).four_d_en)
    }

    /// Read the 6D source register: which orientation thresholds are exceeded.
    pub fn sixd_src_get(&mut self) -> (r: Result<SixdSrc, Error<B::Error>>)
        ensures
            same_regs(old(self).bus, final(self).bus),
            final(self).tim == old(self).tim,
            r matches Ok(v) ==> v == SixdSrc::spec_from_bits(old(self).bus.reg_at(SIXD_SRC_ADDR)),
            r is Err ==> (r matches Err(Error::Bus(_))),
    {
        let b = match self.read_reg(SIXD_SRC_ADDR) {
            Ok(v) => v,
            Err(e) => return Err(e),
        };
        Ok(SixdSrc::from_bits(b))
    }

    /// Set the data fed to the 6D function, ODR/2 filtered or LPF2 output.
    ///
    /// Reads the register, replaces only the `lpass_on6d` field with the code
    /// of `val` and writes the register back, preserving every other field.
    pub fn sixd_feed_data_set(&mut self, val: LpassOn6d) -> (r: Result<(), Error<B::Error>>)
        ensures
            final(self).tim == old(self).tim,
            untouched_except(old(self).bus, final(self).bus, CTRL7_ADDR),
            r is Ok ==> reg_written(
                old(self).bus,
                final(self).bus,
                CTRL7_ADDR,
                (Ctrl7 {
                    lpass_on6d: val.spec_code(),
                    ..Ctrl7::spec_from_bits(old(self).bus.reg_at(CTRL7_ADDR))
                }).spec_to_bits(),
            ),
            r is Err ==> (r matches Err(Error::Bus(_))),
    {
        let b = match self.read_reg(CTRL7_ADDR) {
            Ok(v) => v,
            Err(e) => return Err(e),
        };
        let c = Ctrl7 { lpass_on6d: val.code(), ..Ctrl7::from_bits(b) };
        self.write_reg(CTRL7_ADDR, c.to_bits())
    }

    /// Get the data fed to the 6D function.
    ///
    /// A reserved code reads as the default variant.
    pub fn sixd_feed_data_get(&mut self) -> (r: Result<LpassOn6d, Error<B::Error>>)
        ensures
            same_regs(old(self).bus, final(self).bus),
            final(self).tim == old(self).tim,
            r matches Ok(v) ==> v == LpassOn6d::spec_from_code(
                Ctrl7::spec_from_bits(old(self).bus.reg_at(CTRL7_ADDR)).lpass_on6d,
            ),
            r is Err ==> (r matches Err(Error::Bus(_))),
    {
        let b = match self.read_reg(CTRL7_ADDR) {
            Ok(v) => v,
            Err(e) => return Err(e),
        };
        Ok(LpassOn6d::from_code(Ctrl7::from_bits(b).lpass_on6d))
    }

    /// Set the free-fall duration, 1 LSB = 1 / ODR.  The six-bit value is
    /// split across two registers: its top bit goes to the wake-up duration
    /// register and its low five bits to the free-fall register, preserving
    /// every other field of both.
    pub fn ff_dur_set(&mut self, val: u8) -> (r: Result<(), Error<B::Error>>)
        ensures
            final(self).tim == old(self).tim,
            untouched_except2(old(self).bus, final(self).bus, WAKE_UP_DUR_ADDR, FREE_FALL_ADDR),
            r is Ok ==> regs_written2(
                old(self).bus,
                final(self).bus,
                WAKE_UP_DUR_ADDR,
                (WakeUpDur {
                    ff_dur: val / 32 % 2,
                    ..WakeUpDur::spec_from_bits(old(self).bus.reg_at(WAKE_UP_DUR_ADDR))
                }).spec_to_bits(),
                FREE_FALL_ADDR,
                (FreeFall {
                    ff_dur: val % 32,
                    ..FreeFall::spec_from_bits(old(self).bus.reg_at(FREE_FALL_ADDR))
                }).spec_to_bits(),
            ),
            r is Err ==> (r matches Err(Error::Bus(_))),
    {
        let bd = match self.read_reg(WAKE_UP_DUR_ADDR) {
            Ok(v) => v,
            Err(e) => return Err(e),
        };
        let bf = match self.read_reg(FREE_FALL_ADDR) {
            Ok(v) => v,
            Err(e) => return Err(e),
        };
        let cd = WakeUpDur { ff_dur: val / 32 % 2, ..WakeUpDur::from_bits(bd) };
        let cf = FreeFall { ff_dur: val % 32, ..FreeFall::from_bits(bf) };
        match self.write_reg(WAKE_UP_DUR_ADDR, cd.to_bits()) {
            Ok(()) => (),
            Err(e) => return Err(e),
        };
        self.write_reg(FREE_FALL_ADDR, cf.to_bits())
    }

    /// Get the free-fall duration, reassembled from its top bit in the
    /// wake-up duration register and its low five bits in the free-fall
    /// register.
    pub fn ff_dur_get(&mut self) -> (r: Result<u8, Error<B::Error>>)
        ensures
            same_regs(old(self).bus, final(self).bus),
            final(self).tim == old(self).tim,
            r matches Ok(v) ==> v == WakeUpDur::spec_from_bits(
                old(self).bus.reg_at(WAKE_UP_DUR_ADDR),
            ).ff_dur * 32 + FreeFall::spec_from_bits(old(self).bus.reg_at(FREE_FALL_ADDR)).ff_dur,
            r is Err ==> (r matches Err(Error::Bus(_))),
    {
        let bd = match self.read_reg(WAKE_UP_DUR_ADDR) {
            Ok(v) => v,
            Err(e) => return Err(e),
        };
        let bf = match self.read_reg(FREE_FALL_ADDR) {
            Ok(v) => v,
            Err(e) => return Err(e),
        };
        Ok(WakeUpDur::from_bits(bd).ff_dur * 32 + FreeFall::from_bits(bf).ff_dur)
    }

    /// Set the free-fall threshold.
    ///
    /// Reads the register, replaces only the `ff_ths` field with the code
    /// of `val` and writes the register back, preserving every other field.
    pub fn ff_threshold_set(&mut self, val: FfThs) -> (r: Result<(), Error<B::Error>>)
        ensures
            final(self).tim == old(self).tim,
            untouched_except(old(self).bus, final(self).bus, FREE_FALL_ADDR),
            r is Ok ==> reg_written(
                old(self).bus,
                final(self).bus,
                FREE_FALL_ADDR,
                (FreeFall {
                    ff_ths: val.spec_code(),
                    ..FreeFall::spec_from_bits(old(self).bus.reg_at(FREE_FALL_ADDR))
                }).spec_to_bits(),
            ),
            r is Err ==> (r matches Err(Error::Bus(_))),
    {
        let b = match self.read_reg(FREE_FALL_ADDR) {
            Ok(v) => v,
            Err(e) => return Err(e),
        };
        let c = FreeFall { ff_ths: val.code(), ..FreeFall::from_bits(b) };
        self.write_reg(FREE_FALL_ADDR, c.to_bits())
    }

    /// Get the free-fall threshold.
    ///
    /// A reserved code reads as the default variant.
    pub fn ff_threshold_get(&mut self) -> (r: Result<FfThs, Error<B::Error>>)
        ensures
            same_regs(old(self).bus, final(self).bus),
            final(self).tim == old(self).tim,
            r matches Ok(v) ==> v == FfThs::spec_from_code(
                FreeFall::spec_from_bits(old(self).bus.reg_at(FREE_FALL_ADDR)).ff_ths,
            ),
            r is Err ==> (r matches Err(Error::Bus(_))),
    {
        let b = match self.read_reg(FREE_FALL_ADDR) {
            Ok(v) => v,
            Err(e) => return Err(e),
        };
        Ok(FfThs::from_code(FreeFall::from_bits(b).ff_ths))
    }
}

} // verus!
