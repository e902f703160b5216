//! FIFO operations: watermark, mode and status.
//!
//! The watermark and the mode are independent fields of the FIFO control
//! register: setting one is proved to leave the other unchanged.  The fill
//! level and the status flags are read-only.

use vstd::prelude::*;

use crate::bus::{BusOperation, reg_written, same_regs, untouched_except};
use crate::config::{FifoCtrl, FifoSamples};
use crate::driver::{Error, Iis2dlpc};
use crate::enums::Fmode;
use crate::regmap::{FIFO_CTRL_ADDR, FIFO_SAMPLES_ADDR};

verus! {


/// Setting the FIFO mode leaves the watermark exactly as it was, and
/// setting the watermark leaves the mode exactly as it was, whatever the
/// FIFO control register held before: the two fields occupy disjoint bit
/// spans of the one register.
pub proof fn lemma_fifo_fields_independent(b: u8, wm: u8, m: Fmode)
    ensures
        ({
            let after_mode = (FifoCtrl {
                fmode: m.spec_code(),
                ..FifoCtrl::spec_from_bits(b)
            }).spec_to_bits();
            FifoCtrl::spec_from_bits(after_mode).fth == FifoCtrl::spec_from_bits(b).fth
        }),
        ({
            let after_wm = (FifoCtrl { fth: wm, ..FifoCtrl::spec_from_bits(b) }).spec_to_bits();
            FifoCtrl::spec_from_bits(after_wm).fmode == FifoCtrl::spec_from_bits(b).fmode
        }),
{
    FifoCtrl::lemma_bits_roundtrip(b);
    assert(m.spec_code() < 8);
    let cm = FifoCtrl { fmode: m.spec_code(), ..FifoCtrl::spec_from_bits(b) };
    cm.lemma_fields_roundtrip();
    let f = FifoCtrl::spec_from_bits(b).fmode;
    assert(((wm & 0x1F) | ((f & 0x07) << 5)) >> 5 == f) by (bit_vector)
        requires
            f < 8,
    ;
}

impl<B: BusOperation, T> Iis2dlpc<B, T> {
    /// Set the FIFO watermark level: the unread-sample count at which the threshold flag rises.
    ///
    /// Reads the register, replaces only the `fth` field (truncated to
    /// its bit width) and writes the register back, preserving every other
    /// field.
    pub fn fifo_watermark_set(&mut self, val: u8) -> (r: Result<(), Error<B::Error>>)
        ensures
            final(self).tim == old(self).tim,
            untouched_except(old(self).bus, final(self).bus, FIFO_CTRL_ADDR),
            r is Ok ==> reg_written(
                old(self).bus,
                final(self).bus,
                FIFO_CTRL_ADDR,
                (FifoCtrl {
                    fth: val,
                    ..FifoCtrl::spec_from_bits(old(self).bus.reg_at(FIFO_CTRL_ADDR))
                }).spec_to_bits(),
            ),
            r is Err ==> (r matches Err(Error::Bus(_))),
    {
        let b = match self.read_reg(FIFO_CTRL_ADDR) {
            Ok(v) => v,
            Err(e) => return Err(e),
        };
        let c = FifoCtrl { fth: val, ..FifoCtrl::from_bits(b) };
        self.write_reg(FIFO_CTRL_ADDR, c.to_bits())
    }

    /// Get the FIFO watermark level.
    pub fn fifo_watermark_get(&mut self) -> (r: Result<u8, Error<B::Error>>)
        ensures
            same_regs(old(self).bus, final(self).bus),
            final(self).tim == old(self).tim,
            r matches Ok(v) ==> v == FifoCtrl::spec_from_bits(old(self).bus.reg_at(FIFO_CTRL_ADDR)).fth,
            r is Err ==> (r matches Err(Error::Bus(_))),
    {
        let b = match self.read_reg(FIFO_CTRL_ADDR) {
            Ok(v) => v,
            Err(e) => return Err(e),
        };
        Ok(FifoCtrl::from_bits(b).fth)
    }

    /// Set the FIFO operating mode, leaving the watermark untouched.
    ///
    /// Reads the register, replaces only the `fmode` field with the code
    /// of `val` and writes the register back, preserving every other field.
    pub fn fifo_mode_set(&mut self, val: Fmode) -> (r: Result<(), Error<B::Error>>)
        ensures
            final(self).tim == old(self).tim,
            untouched_except(old(self).bus, final(self).bus, FIFO_CTRL_ADDR),
            r is Ok ==> reg_written(
                old(self).bus,
                final(self).bus,
                FIFO_CTRL_ADDR,
                (FifoCtrl {
                    fmode: val.spec_code(),
                    ..FifoCtrl::spec_from_bits(old(self).bus.reg_at(FIFO_CTRL_ADDR))
                }).spec_to_bits(),
            ),
            r is Err ==> (r matches Err(Error::Bus(_))),
    {
        let b = match self.read_reg(FIFO_CTRL_ADDR) {
            Ok(v) => v,
            Err(e) => return Err(e),
        };
        let c = FifoCtrl { fmode: val.code(), ..FifoCtrl::from_bits(b) };
        self.write_reg(FIFO_CTRL_ADDR, c.to_bits())
    }

    /// Get the FIFO operating mode.
    ///
    /// A reserved code reads as the default variant.
    pub fn fifo_mode_get(&mut self) -> (r: Result<Fmode, Error<B::Error>>)
        ensures
            same_regs(old(self).bus, final(self).bus),
            final(self).tim == old(self).tim,
            r matches Ok(v) ==> v == Fmode::spec_from_code(
                FifoCtrl::spec_from_bits(old(self).bus.reg_at(FIFO_CTRL_ADDR)).fmode,
            ),
            r is Err ==> (r matches Err(Error::Bus(_))),
    {
        let b = match self.read_reg(FIFO_CTRL_ADDR) {
            Ok(v) => v,
            Err(e) => return Err(e),
        };
        Ok(Fmode::from_code(FifoCtrl::from_bits(b).fmode))
    }

    /// Get the number of unread samples stored in the FIFO.
    pub fn fifo_data_level_get(&mut self) -> (r: Result<u8, Error<B::Error>>)
        ensures
            same_regs(old(self).bus, final(self).bus),
            final(self).tim == old(self).tim,
            r matches Ok(v) ==> v == FifoSamples::spec_from_bits(old(self).bus.reg_at(FIFO_SAMPLES_ADDR)).diff,
            r is Err ==> (r matches Err(Error::Bus(_))),
    {
        let b = match self.read_reg(FIFO_SAMPLES_ADDR) {
            Ok(v) => v,
            Err(e) => return Err(e),
        };
        Ok(FifoSamples::from_bits(b).diff)
    }

    /// Get the FIFO overrun flag: 1 when a sample has been overwritten.
    pub fn fifo_ovr_flag_get(&mut self) -> (r: Result<u8, Error<B::Error>>)
        ensures
            same_regs(old(self).bus, final(self).bus),
            final(self).tim == old(self).tim,
            r matches Ok(v) ==> v == FifoSamples::spec_from_bits(old(self).bus.reg_at(FIFO_SAMPLES_ADDR)).fifo_ovr,
            r is Err ==> (r matches Err(Error::Bus(_))),
    {
        let b = match self.read_reg(FIFO_SAMPLES_ADDR) {
            Ok(v) => v,
            Err(e) => return Err(e),
        };
        Ok(FifoSamples::from_bits(b).fifo_ovr)
    }

    /// Get the FIFO threshold flag: 1 when the fill level has reached the watermark.
    pub fn fifo_wtm_flag_get(&mut self) -> (r: Result<u8, Error<B::Error>>)
        ensures
            same_regs(old(self).bus, final(self).bus),
            final(self).tim == old(self).tim,
            r matches Ok(v) ==> v == FifoSamples::spec_from_bits(old(self).bus.reg_at(FIFO_SAMPLES_ADDR)).fifo_fth,
            r is Err ==> (r matches Err(Error::Bus(_))),
    {
        let b = match self.read_reg(FIFO_SAMPLES_ADDR) {
            Ok(v) => v,
            Err(e) => return Err(e),
        };
        Ok(FifoSamples::from_bits(b).fifo_fth)
    }
}

} // verus!
