//! Interrupt pin configuration and routing.
//!
//! The two pad-control registers hold one enable bit per interrupt signal.
//! A shared `interrupts_enable` flag in control register 7 must stay
//! consistent with both: it is turned on exactly when some event interrupt
//! (tap, free-fall, wake-up, single-tap or 6D on INT1; sleep change or
//! sleep state on INT2) is enabled on either pad.  The data-ready and FIFO
//! signals run without the shared flag and take no part in it.  Every
//! routing update therefore also reads the other pad's register and
//! recomputes the flag from the union of both — the cross-register
//! invariant proved by [`lemma_int1_routing_consistent`] and
//! [`lemma_int2_routing_consistent`].

use vstd::prelude::*;

use crate::bus::{
    BusOperation, reg_written, regs_written2, same_regs, untouched_except, untouched_except2,
};
use crate::ctrl::{Ctrl3, Ctrl4Int1PadCtrl, Ctrl5Int2PadCtrl, Ctrl7};
use crate::driver::{Error, Iis2dlpc, PROPERTY_DISABLE, PROPERTY_ENABLE};
use crate::enums::{HLactive, Lir, PpOd};
use crate::regmap::{
    CTRL3_ADDR, CTRL4_INT1_PAD_CTRL_ADDR, CTRL5_INT2_PAD_CTRL_ADDR, CTRL7_ADDR,
};

verus! {

/// Some event interrupt is enabled across the two pad-control registers:
/// tap, free-fall, wake-up, single-tap or 6D routed to INT1, or a sleep
/// interrupt routed to INT2.  These are the signals governed by the shared
/// `interrupts_enable` flag; data-ready and FIFO signals are not.
pub open spec fn spec_event_ints_enabled(c4: Ctrl4Int1PadCtrl, c5: Ctrl5Int2PadCtrl) -> bool {
    c4.int1_tap != 0 || c4.int1_ff != 0 || c4.int1_wu != 0 || c4.int1_single_tap != 0
        || c4.int1_6d != 0 || c5.int2_sleep_chg != 0 || c5.int2_sleep_state != 0
}

/// The byte that control register 7 holds after a routing update: its
/// previous content with the `interrupts_enable` flag recomputed.
pub open spec fn spec_ctrl7_after_routing(
    b7: u8,
    c4: Ctrl4Int1PadCtrl,
    c5: Ctrl5Int2PadCtrl,
) -> u8 {
    (Ctrl7 {
        interrupts_enable: if spec_event_ints_enabled(c4, c5) {
            1u8
        } else {
            0u8
        },
        ..Ctrl7::spec_from_bits(b7)
    }).spec_to_bits()
}

/// After `pin_int1_route_set(val)`, reading the two pad-control registers
/// and control register 7 back shows the shared `interrupts_enable` flag on
/// exactly when some event-interrupt enable bit is on across both pads.
pub proof fn lemma_int1_routing_consistent(val: Ctrl4Int1PadCtrl, b5: u8, b7: u8)
    requires
        val.wf(),
    ensures
        ({
            let c5 = Ctrl5Int2PadCtrl::spec_from_bits(b5);
            let rb4 = Ctrl4Int1PadCtrl::spec_from_bits(val.spec_to_bits());
            let rb7 = Ctrl7::spec_from_bits(spec_ctrl7_after_routing(b7, val, c5));
            rb7.interrupts_enable == 1 <==> spec_event_ints_enabled(rb4, c5)
        }),
{
    let c5 = Ctrl5Int2PadCtrl::spec_from_bits(b5);
    val.lemma_fields_roundtrip();
    Ctrl7::lemma_bits_roundtrip(b7);
    let c7 = Ctrl7 {
        interrupts_enable: if spec_event_ints_enabled(val, c5) {
            1u8
        } else {
            0u8
        },
        ..Ctrl7::spec_from_bits(b7)
    };
    c7.lemma_fields_roundtrip();
}

/// After `pin_int2_route_set(val)`, reading the two pad-control registers
/// and control register 7 back shows the shared `interrupts_enable` flag on
/// exactly when some event-interrupt enable bit is on across both pads.
pub proof fn lemma_int2_routing_consistent(val: Ctrl5Int2PadCtrl, b4: u8, b7: u8)
    requires
        val.wf(),
    ensures
        ({
            let c4 = Ctrl4Int1PadCtrl::spec_from_bits(b4);
            let rb5 = Ctrl5Int2PadCtrl::spec_from_bits(val.spec_to_bits());
            let rb7 = Ctrl7::spec_from_bits(spec_ctrl7_after_routing(b7, c4, val));
            rb7.interrupts_enable == 1 <==> spec_event_ints_enabled(c4, rb5)
        }),
{
    let c4 = Ctrl4Int1PadCtrl::spec_from_bits(b4);
    val.lemma_fields_roundtrip();
    Ctrl7::lemma_bits_roundtrip(b7);
    let c7 = Ctrl7 {
        interrupts_enable: if spec_event_ints_enabled(c4, val) {
            1u8
        } else {
            0u8
        },
        ..Ctrl7::spec_from_bits(b7)
    };
    c7.lemma_fields_roundtrip();
}

impl<B: BusOperation, T> Iis2dlpc<B, T> {
    /// Set the interrupt active level, high or low.
    ///
    /// Reads control register 3, replaces only the `h_lactive` field and
    /// writes it back, preserving every other field.
    pub fn pin_polarity_set(&mut self, val: HLactive) -> (r: Result<(), Error<B::Error>>)
        ensures
            final(self).tim == old(self).tim,
            untouched_except(old(self).bus, final(self).bus, CTRL3_ADDR),
            r is Ok ==> reg_written(
                old(self).bus,
                final(self).bus,
                CTRL3_ADDR,
                (Ctrl3 {
                    h_lactive: val.spec_code(),
                    ..Ctrl3::spec_from_bits(old(self).bus.reg_at(CTRL3_ADDR))
                }).spec_to_bits(),
            ),
            r is Err ==> (r matches Err(Error::Bus(_))),
    {
        let b = match self.read_reg(CTRL3_ADDR) {
            Ok(v) => v,
            Err(e) => return Err(e),
        };
        let c = Ctrl3 { h_lactive: val.code(), ..Ctrl3::from_bits(b) };
        self.write_reg(CTRL3_ADDR, c.to_bits())
    }

    /// Get the interrupt active level.
    pub fn pin_polarity_get(&mut self) -> (r: Result<HLactive, Error<B::Error>>)
        ensures
            same_regs(old(self).bus, final(self).bus),
            final(self).tim == old(self).tim,
            r matches Ok(v) ==> v == HLactive::spec_from_code(
                Ctrl3::spec_from_bits(old(self).bus.reg_at(CTRL3_ADDR)).h_lactive,
            ),
            r is Err ==> (r matches Err(Error::Bus(_))),
    {
        let b = match self.read_reg(CTRL3_ADDR) {
            Ok(v) => v,
            Err(e) => return Err(e),
        };
        Ok(HLactive::from_code(Ctrl3::from_bits(b).h_lactive))
    }

    /// Set the interrupt notification mode, pulsed or latched.
    ///
    /// Reads control register 3, replaces only the `lir` field and writes
    /// it back, preserving every other field.
    pub fn int_notification_set(&mut self, val: Lir) -> (r: Result<(), Error<B::Error>>)
        ensures
            final(self).tim == old(self).tim,
            untouched_except(old(self).bus, final(self).bus, CTRL3_ADDR),
            r is Ok ==> reg_written(
                old(self).bus,
                final(self).bus,
                CTRL3_ADDR,
                (Ctrl3 {
                    lir: val.spec_code(),
                    ..Ctrl3::spec_from_bits(old(self).bus.reg_at(CTRL3_ADDR))
                }).spec_to_bits(),
            ),
            r is Err ==> (r matches Err(Error::Bus(_))),
    {
        let b = match self.read_reg(CTRL3_ADDR) {
            Ok(v) => v,
            Err(e) => return Err(e),
        };
        let c = Ctrl3 { lir: val.code(), ..Ctrl3::from_bits(b) };
        self.write_reg(CTRL3_ADDR, c.to_bits())
    }

    /// Get the interrupt notification mode.
    pub fn int_notification_get(&mut self) -> (r: Result<Lir, Error<B::Error>>)
        ensures
            same_regs(old(self).bus, final(self).bus),
            final(self).tim == old(self).tim,
            r matches Ok(v) ==> v == Lir::spec_from_code(
                Ctrl3::spec_from_bits(old(self).bus.reg_at(CTRL3_ADDR)).lir,
            ),
            r is Err ==> (r matches Err(Error::Bus(_))),
    {
        let b = match self.read_reg(CTRL3_ADDR) {
            Ok(v) => v,
            Err(e) => return Err(e),
        };
        Ok(Lir::from_code(Ctrl3::from_bits(b).lir))
    }

    /// Set the interrupt pad output type, push-pull or open-drain.
    ///
    /// Reads control register 3, replaces only the `pp_od` field and writes
    /// it back, preserving every other field.
    pub fn pin_mode_set(&mut self, val: PpOd) -> (r: Result<(), Error<B::Error>>)
        ensures
            final(self).tim == old(self).tim,
            untouched_except(old(self).bus, final(self).bus, CTRL3_ADDR),
            r is Ok ==> reg_written(
                old(self).bus,
                final(self).bus,
                CTRL3_ADDR,
                (Ctrl3 {
                    pp_od: val.spec_code(),
                    ..Ctrl3::spec_from_bits(old(self).bus.reg_at(CTRL3_ADDR))
                }).spec_to_bits(),
            ),
            r is Err ==> (r matches Err(Error::Bus(_))),
    {
        let b = match self.read_reg(CTRL3_ADDR) {
            Ok(v) => v,
            Err(e) => return Err(e),
        };
        let c = Ctrl3 { pp_od: val.code(), ..Ctrl3::from_bits(b) };
        self.write_reg(CTRL3_ADDR, c.to_bits())
    }

    /// Get the interrupt pad output type.
    pub fn pin_mode_get(&mut self) -> (r: Result<PpOd, Error<B::Error>>)
        ensures
            same_regs(old(self).bus, final(self).bus),
            final(self).tim == old(self).tim,
            r matches Ok(v) ==> v == PpOd::spec_from_code(
                Ctrl3::spec_from_bits(old(self).bus.reg_at(CTRL3_ADDR)).pp_od,
            ),
            r is Err ==> (r matches Err(Error::Bus(_))),
    {
        let b = match self.read_reg(CTRL3_ADDR) {
            Ok(v) => v,
            Err(e) => return Err(e),
        };
        Ok(PpOd::from_code(Ctrl3::from_bits(b).pp_od))
    }

    /// Route the given signals to the INT1 pad, and recompute the shared
    /// `interrupts_enable` flag of control register 7 from the union of
    /// these signals and the sleep interrupts currently routed to INT2.
    pub fn pin_int1_route_set(&mut self, val: &Ctrl4Int1PadCtrl) -> (r: Result<
        (),
        Error<B::Error>,
    >)
        ensures
            final(self).tim == old(self).tim,
            untouched_except2(
                old(self).bus,
                final(self).bus,
                CTRL4_INT1_PAD_CTRL_ADDR,
                CTRL7_ADDR,
            ),
            r is Ok ==> regs_written2(
                old(self).bus,
                final(self).bus,
                CTRL4_INT1_PAD_CTRL_ADDR,
                val.spec_to_bits(),
                CTRL7_ADDR,
                spec_ctrl7_after_routing(
                    old(self).bus.reg_at(CTRL7_ADDR),
                    *val,
                    Ctrl5Int2PadCtrl::spec_from_bits(
                        old(self).bus.reg_at(CTRL5_INT2_PAD_CTRL_ADDR),
                    ),
                ),
            ),
            r is Err ==> (r matches Err(Error::Bus(_))),
    {
        let b5 = match self.read_reg(CTRL5_INT2_PAD_CTRL_ADDR) {
            Ok(v) => v,
            Err(e) => return Err(e),
        };
        let b7 = match self.read_reg(CTRL7_ADDR) {
            Ok(v) => v,
            Err(e) => return Err(e),
        };
        let c5 = Ctrl5Int2PadCtrl::from_bits(b5);
        let enable: u8 = if c5.int2_sleep_state != 0 || c5.int2_sleep_chg != 0
            || val.int1_tap != 0 || val.int1_ff != 0 || val.int1_wu != 0
            || val.int1_single_tap != 0 || val.int1_6d != 0 {
            PROPERTY_ENABLE
        } else {
            PROPERTY_DISABLE
        };
        let c7 = Ctrl7 { interrupts_enable: enable, ..Ctrl7::from_bits(b7) };
        match self.write_reg(CTRL4_INT1_PAD_CTRL_ADDR, val.to_bits()) {
            Ok(()) => (),
            Err(e) => return Err(e),
        };
        self.write_reg(CTRL7_ADDR, c7.to_bits())
    }

    /// Get the signals currently routed to the INT1 pad.
    pub fn pin_int1_route_get(&mut self) -> (r: Result<Ctrl4Int1PadCtrl, Error<B::Error>>)
        ensures
            same_regs(old(self).bus, final(self).bus),
            final(self).tim == old(self).tim,
            r matches Ok(v) ==> v == Ctrl4Int1PadCtrl::spec_from_bits(
                old(self).bus.reg_at(CTRL4_INT1_PAD_CTRL_ADDR),
            ),
            r is Err ==> (r matches Err(Error::Bus(_))),
    {
        let b = match self.read_reg(CTRL4_INT1_PAD_CTRL_ADDR) {
            Ok(v) => v,
            Err(e) => return Err(e),
        };
        Ok(Ctrl4Int1PadCtrl::from_bits(b))
    }

    /// Route the given signals to the INT2 pad, and recompute the shared
    /// `interrupts_enable` flag of control register 7 from the union of
    /// these signals and the event interrupts currently routed to INT1.
    pub fn pin_int2_route_set(&mut self, val: &Ctrl5Int2PadCtrl) -> (r: Result<
        (),
        Error<B::Error>,
    >)
        ensures
            final(self).tim == old(self).tim,
            untouched_except2(
                old(self).bus,
                final(self).bus,
                CTRL5_INT2_PAD_CTRL_ADDR,
                CTRL7_ADDR,
            ),
            r is Ok ==> regs_written2(
                old(self).bus,
                final(self).bus,
                CTRL5_INT2_PAD_CTRL_ADDR,
                val.spec_to_bits(),
                CTRL7_ADDR,
                spec_ctrl7_after_routing(
                    old(self).bus.reg_at(CTRL7_ADDR),
                    Ctrl4Int1PadCtrl::spec_from_bits(
                        old(self).bus.reg_at(CTRL4_INT1_PAD_CTRL_ADDR),
                    ),
                    *val,
                ),
            ),
            r is Err ==> (r matches Err(Error::Bus(_))),
    {
        let b4 = match self.read_reg(CTRL4_INT1_PAD_CTRL_ADDR) {
            Ok(v) => v,
            Err(e) => return Err(e),
        };
        let b7 = match self.read_reg(CTRL7_ADDR) {
            Ok(v) => v,
            Err(e) => return Err(e),
        };
        let c4 = Ctrl4Int1PadCtrl::from_bits(b4);
        let enable: u8 = if val.int2_sleep_state != 0 || val.int2_sleep_chg != 0
            || c4.int1_tap != 0 || c4.int1_ff != 0 || c4.int1_wu != 0
            || c4.int1_single_tap != 0 || c4.int1_6d != 0 {
            PROPERTY_ENABLE
        } else {
            PROPERTY_DISABLE
        };
        let c7 = Ctrl7 { interrupts_enable: enable, ..Ctrl7::from_bits(b7) };
        match self.write_reg(CTRL5_INT2_PAD_CTRL_ADDR, val.to_bits()) {
            Ok(()) => (),
            Err(e) => return Err(e),
        };
        self.write_reg(CTRL7_ADDR, c7.to_bits())
    }

    /// Get the signals currently routed to the INT2 pad.
    pub fn pin_int2_route_get(&mut self) -> (r: Result<Ctrl5Int2PadCtrl, Error<B::Error>>)
        ensures
            same_regs(old(self).bus, final(self).bus),
            final(self).tim == old(self).tim,
            r matches Ok(v) ==> v == Ctrl5Int2PadCtrl::spec_from_bits(
                old(self).bus.reg_at(CTRL5_INT2_PAD_CTRL_ADDR),
            ),
            r is Err ==> (r matches Err(Error::Bus(_))),
    {
        let b = match self.read_reg(CTRL5_INT2_PAD_CTRL_ADDR) {
            Ok(v) => v,
            Err(e) => return Err(e),
        };
        Ok(Ctrl5Int2PadCtrl::from_bits(b))
    }

    /// Make every INT2 signal available on the INT1 pad as well.
    ///
    /// Reads control register 7, replaces only the `int2_on_int1` field
    /// (truncated to one bit) and writes it back, preserving every other
    /// field.
    pub fn all_on_int1_set(&mut self, val: u8) -> (r: Result<(), Error<B::Error>>)
        ensures
            final(self).tim == old(self).tim,
            untouched_except(old(self).bus, final(self).bus, CTRL7_ADDR),
            r is Ok ==> reg_written(
                old(self).bus,
                final(self).bus,
                CTRL7_ADDR,
                (Ctrl7 {
                    int2_on_int1: val,
                    ..Ctrl7::spec_from_bits(old(self).bus.reg_at(CTRL7_ADDR))
                }).spec_to_bits(),
            ),
            r is Err ==> (r matches Err(Error::Bus(_))),
    {
        let b = match self.read_reg(CTRL7_ADDR) {
            Ok(v) => v,
            Err(e) => return Err(e),
        };
        let c = Ctrl7 { int2_on_int1: val, ..Ctrl7::from_bits(b) };
        self.write_reg(CTRL7_ADDR, c.to_bits())
    }

    /// Get whether every INT2 signal is routed to the INT1 pad.
    pub fn all_on_int1_get(&mut self) -> (r: Result<u8, Error<B::Error>>)
        ensures
            same_regs(old(self).bus, final(self).bus),
            final(self).tim == old(self).tim,
            r matches Ok(v) ==> v == Ctrl7::spec_from_bits(
                old(self).bus.reg_at(CTRL7_ADDR),
            ).int2_on_int1,
            r is Err ==> (r matches Err(Error::Bus(_))),
    {
        let b = match self.read_reg(CTRL7_ADDR) {
            Ok(v) => v,
            Err(e) => return Err(e),
        };
        Ok(Ctrl7::from_bits(b).int2_on_int1)
    }
}

} // verus!
