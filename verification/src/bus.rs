//! Bus transport abstraction.
//!
//! The device hangs off an I2C or SPI link; all the driver ever asks of the
//! link is "read N bytes starting at a register address" and "write N bytes
//! starting at a register address".  The trait below captures that capability
//! together with a specification view of the device's register file: a total
//! function from register address to the byte currently held there.  Reads
//! leave the register file alone and return the bytes it holds; a write
//! replaces exactly the addressed span and nothing else, and even a failed
//! write touches nothing outside the addressed span.
//!
//! [`MockBus`] is an in-memory register file implementing the trait, used to
//! exercise the driver without hardware.

use vstd::prelude::*;

verus! {

/// Two register files hold the same byte at every address.
pub open spec fn same_regs<B: BusOperation>(b0: B, b1: B) -> bool {
    forall|a: u8| b0.reg_at(a) == b1.reg_at(a)
}

/// `b1` is `b0` with the single register `r` replaced by `v`.
pub open spec fn reg_written<B: BusOperation>(b0: B, b1: B, r: u8, v: u8) -> bool {
    forall|a: u8| b1.reg_at(a) == (if a == r { v } else { b0.reg_at(a) })
}

/// `b1` is `b0` with register `r1` replaced by `v1` and then `r2` by `v2`.
pub open spec fn regs_written2<B: BusOperation>(
    b0: B,
    b1: B,
    r1: u8,
    v1: u8,
    r2: u8,
    v2: u8,
) -> bool {
    forall|a: u8|
        b1.reg_at(a) == (if a == r2 {
            v2
        } else if a == r1 {
            v1
        } else {
            b0.reg_at(a)
        })
}

/// Every register other than `r` holds the same byte in `b1` as in `b0`.
pub open spec fn untouched_except<B: BusOperation>(b0: B, b1: B, r: u8) -> bool {
    forall|a: u8| a != r ==> b1.reg_at(a) == b0.reg_at(a)
}

/// Every register other than `r1` and `r2` holds the same byte in `b1` as in `b0`.
pub open spec fn untouched_except2<B: BusOperation>(b0: B, b1: B, r1: u8, r2: u8) -> bool {
    forall|a: u8| a != r1 && a != r2 ==> b1.reg_at(a) == b0.reg_at(a)
}

/// The capability the environment supplies: byte transfers addressed by
/// device register, over whatever physical link the caller owns.
///
/// The specification models the device as a register file read and written
/// through the bus.  An implementation may fail any transfer (returning the
/// transport's own error), but a read never disturbs the register file, and
/// a write never disturbs registers outside the addressed span.
pub trait BusOperation: Sized {
    /// The transport's own error type.
    type Error;

    /// The byte currently held at register address `a`.
    spec fn reg_at(&self, a: u8) -> u8;

    /// Read `buf.len()` bytes starting at register address `reg`, one byte
    /// per consecutive address.
    fn read_from_register(&mut self, reg: u8, buf: &mut Vec<u8>) -> (r: Result<
        (),
        Self::Error,
    >)
        requires
            reg + old(buf)@.len() <= 256,
        ensures
            forall|a: u8| final(self).reg_at(a) == old(self).reg_at(a),
            final(buf)@.len() == old(buf)@.len(),
            r is Ok ==> forall|i: int|
                0 <= i < old(buf)@.len() ==> final(buf)@[i] == old(self).reg_at(
                    (reg + i) as u8,
                ),
    ;

    /// Write the bytes of `buf` starting at register address `reg`, one byte
    /// per consecutive address.
    fn write_to_register(&mut self, reg: u8, buf: &Vec<u8>) -> (r: Result<(), Self::Error>)
        requires
            reg + buf@.len() <= 256,
        ensures
            forall|a: u8|
                !(reg <= a < reg + buf@.len()) ==> final(self).reg_at(a) == old(self).reg_at(
                    a,
                ),
            r is Ok ==> forall|a: u8|
                reg <= a < reg + buf@.len() ==> final(self).reg_at(a) == buf@[a - reg],
    ;
}

/// An in-memory register file: the driver talks to it exactly as it would to
/// the device, and every transfer succeeds.
pub struct MockBus {
    mem: Vec<u8>,
}

impl MockBus {
    #[verifier::type_invariant]
    spec fn type_inv(self) -> bool {
        self.mem@.len() == 256
    }

    /// A register file holding zero in every register.
    pub fn new() -> (r: MockBus)
        ensures
            forall|a: u8| r.reg_at(a) == 0,
    {
        let mut mem: Vec<u8> = Vec::new();
        let mut i: usize = 0;
        while i < 256
            invariant
                i <= 256,
                mem@.len() == i,
                forall|j: int| 0 <= j < i ==> mem@[j] == 0,
            decreases 256 - i,
        {
            mem.push(0);
            i += 1;
        }
        MockBus { mem }
    }

    /// Store `v` at register address `a`.
    pub fn set_reg(&mut self, a: u8, v: u8)
        ensures
            reg_written(*old(self), *final(self), a, v),
    {
        proof {
            use_type_invariant(&*self);
        }
        self.mem[a as usize] = v;
    }

    /// The byte held at register address `a`.
    pub fn get_reg(&self, a: u8) -> (r: u8)
        ensures
            r == self.reg_at(a),
    {
        proof {
            use_type_invariant(self);
        }
        self.mem[a as usize]
    }
}

impl BusOperation for MockBus {
    type Error = ();

    closed spec fn reg_at(&self, a: u8) -> u8 {
        self.mem@[a as int]
    }

    fn read_from_register(&mut self, reg: u8, buf: &mut Vec<u8>) -> (r: Result<(), ()>) {
        proof {
            use_type_invariant(&*self);
        }
        let n = buf.len();
        let mut i: usize = 0;
        while i < n
            invariant
                i <= n,
                n == old(buf)@.len(),
                buf@.len() == n,
                reg + n <= 256,
                self == old(self),
                self.mem@.len() == 256,
                forall|j: int| 0 <= j < i ==> buf@[j] == self.reg_at((reg + j) as u8),
            decreases n - i,
        {
            let v = self.mem[reg as usize + i];
            buf[i] = v;
            i += 1;
        }
        Ok(())
    }

    fn write_to_register(&mut self, reg: u8, buf: &Vec<u8>) -> (r: Result<(), ()>) {
        proof {
            use_type_invariant(&*self);
        }
        let n = buf.len();
        let mut i: usize = 0;
        while i < n
            invariant
                i <= n,
                n == buf@.len(),
                reg + n <= 256,
                self.mem@.len() == 256,
                forall|a: u8|
                    !(reg <= a < reg + i) ==> self.reg_at(a) == old(self).reg_at(a),
                forall|a: u8| reg <= a < reg + i ==> self.reg_at(a) == buf@[a - reg],
            decreases n - i,
        {
            let v = buf[i];
            let ghost pre = *self;
            self.mem[reg as usize + i] = v;
            proof {
                assert(self.mem@ == pre.mem@.update(reg as int + i, v));
                assert forall|a: u8| reg <= a < reg + i + 1 implies self.reg_at(a) == buf@[a - reg] by {
                    if a == reg + i {
                        assert(self.mem@[a as int] == v);
                    } else {
                        assert(pre.reg_at(a) == buf@[a - reg]);
                        assert(self.reg_at(a) == pre.reg_at(a));
                    }
                }
                assert forall|a: u8| !(reg <= a < reg + i + 1) implies self.reg_at(a) == old(self).reg_at(a) by {
                    assert(pre.reg_at(a) == old(self).reg_at(a));
                    assert(self.reg_at(a) == pre.reg_at(a));
                }
            }
            i += 1;
        }
        Ok(())
    }
}

} // verus!
