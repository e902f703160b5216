//! The device's register map: one fixed address per register.
//!
//! Addresses run from 0x0D to 0x3F and never change at runtime.  The
//! constants are used by the driver's contracts to say exactly which
//! register an operation reads or writes.

use vstd::prelude::*;

verus! {

/// Temperature output, low byte.
pub const OUT_T_L_ADDR: u8 = 0x0D;

/// Temperature output, high byte.
pub const OUT_T_H_ADDR: u8 = 0x0E;

/// Device-identity register; reads as [`crate::driver::ID`].
pub const WHO_AM_I_ADDR: u8 = 0x0F;

/// Control register 1.
pub const CTRL1_ADDR: u8 = 0x20;

/// Control register 2.
pub const CTRL2_ADDR: u8 = 0x21;

/// Control register 3.
pub const CTRL3_ADDR: u8 = 0x22;

/// INT1 pad routing control.
pub const CTRL4_INT1_PAD_CTRL_ADDR: u8 = 0x23;

/// INT2 pad routing control.
pub const CTRL5_INT2_PAD_CTRL_ADDR: u8 = 0x24;

/// Control register 6.
pub const CTRL6_ADDR: u8 = 0x25;

/// Temperature output, 8-bit resolution.
pub const OUT_T_ADDR: u8 = 0x26;

/// Status register.
pub const STATUS_ADDR: u8 = 0x27;

/// X-axis output, low byte.
pub const OUT_X_L_ADDR: u8 = 0x28;

/// X-axis output, high byte.
pub const OUT_X_H_ADDR: u8 = 0x29;

/// Y-axis output, low byte.
pub const OUT_Y_L_ADDR: u8 = 0x2A;

/// Y-axis output, high byte.
pub const OUT_Y_H_ADDR: u8 = 0x2B;

/// Z-axis output, low byte.
pub const OUT_Z_L_ADDR: u8 = 0x2C;

/// Z-axis output, high byte.
pub const OUT_Z_H_ADDR: u8 = 0x2D;

/// FIFO control register.
pub const FIFO_CTRL_ADDR: u8 = 0x2E;

/// FIFO samples register.
pub const FIFO_SAMPLES_ADDR: u8 = 0x2F;

/// Tap threshold, X-axis.
pub const TAP_THS_X_ADDR: u8 = 0x30;

/// Tap threshold, Y-axis.
pub const TAP_THS_Y_ADDR: u8 = 0x31;

/// Tap threshold, Z-axis.
pub const TAP_THS_Z_ADDR: u8 = 0x32;

/// Tap duration configuration.
pub const INT_DUR_ADDR: u8 = 0x33;

/// Wake-up threshold configuration.
pub const WAKE_UP_THS_ADDR: u8 = 0x34;

/// Wake-up duration configuration.
pub const WAKE_UP_DUR_ADDR: u8 = 0x35;

/// Free-fall configuration.
pub const FREE_FALL_ADDR: u8 = 0x36;

/// Status duplicate register.
pub const STATUS_DUP_ADDR: u8 = 0x37;

/// Wake-up source register.
pub const WAKE_UP_SRC_ADDR: u8 = 0x38;

/// Tap source register.
pub const TAP_SRC_ADDR: u8 = 0x39;

/// 6D source register.
pub const SIXD_SRC_ADDR: u8 = 0x3A;

/// All-interrupt source register.
pub const ALL_INT_SRC_ADDR: u8 = 0x3B;

/// X-axis user offset register.
pub const X_OFS_USR_ADDR: u8 = 0x3C;

/// Y-axis user offset register.
pub const Y_OFS_USR_ADDR: u8 = 0x3D;

/// Z-axis user offset register.
pub const Z_OFS_USR_ADDR: u8 = 0x3E;

/// Control register 7.
pub const CTRL7_ADDR: u8 = 0x3F;

/// The memory-mapped registers of the device, one variant per register.
#[derive(Clone, Copy, Debug, PartialEq, Eq, Structural)]
pub enum Reg {
    /// Temperature output register (low byte).
    OutTL,
    /// Temperature output register (high byte).
    OutTH,
    /// Who Am I register (read-only device identity).
    WhoAmI,
    /// Control register 1.
    Ctrl1,
    /// Control register 2.
    Ctrl2,
    /// Control register 3.
    Ctrl3,
    /// Control register 4 for INT1 pad control.
    Ctrl4Int1PadCtrl,
    /// Control register 5 for INT2 pad control.
    Ctrl5Int2PadCtrl,
    /// Control register 6.
    Ctrl6,
    /// Temperature output register (8-bit resolution).
    OutT,
    /// Status register.
    Status,
    /// X-axis output register (low byte).
    OutXL,
    /// X-axis output register (high byte).
    OutXH,
    /// Y-axis output register (low byte).
    OutYL,
    /// Y-axis output register (high byte).
    OutYH,
    /// Z-axis output register (low byte).
    OutZL,
    /// Z-axis output register (high byte).
    OutZH,
    /// FIFO control register.
    FifoCtrl,
    /// FIFO samples register.
    FifoSamples,
    /// Tap threshold configuration for the X-axis.
    TapThsX,
    /// Tap threshold configuration for the Y-axis.
    TapThsY,
    /// Tap threshold configuration for the Z-axis.
    TapThsZ,
    /// Interrupt duration configuration.
    IntDur,
    /// Wake-up threshold configuration.
    WakeUpThs,
    /// Wake-up duration configuration.
    WakeUpDur,
    /// Free-fall configuration.
    FreeFall,
    /// Status duplicate register.
    StatusDup,
    /// Wake-up source register.
    WakeUpSrc,
    /// Tap source register.
    TapSrc,
    /// 6D source register.
    SixdSrc,
    /// All interrupt source register.
    AllIntSrc,
    /// X-axis user offset register.
    XOfsUsr,
    /// Y-axis user offset register.
    YOfsUsr,
    /// Z-axis user offset register.
    ZOfsUsr,
    /// Control register 7.
    Ctrl7,
}

impl Reg {
    /// The fixed bus address of the register.
    pub open spec fn spec_addr(self) -> u8 {
        match self {
            Reg::OutTL => OUT_T_L_ADDR,
            Reg::OutTH => OUT_T_H_ADDR,
            Reg::WhoAmI => WHO_AM_I_ADDR,
            Reg::Ctrl1 => CTRL1_ADDR,
            Reg::Ctrl2 => CTRL2_ADDR,
            Reg::Ctrl3 => CTRL3_ADDR,
            Reg::Ctrl4Int1PadCtrl => CTRL4_INT1_PAD_CTRL_ADDR,
            Reg::Ctrl5Int2PadCtrl => CTRL5_INT2_PAD_CTRL_ADDR,
            Reg::Ctrl6 => CTRL6_ADDR,
            Reg::OutT => OUT_T_ADDR,
            Reg::Status => STATUS_ADDR,
            Reg::OutXL => OUT_X_L_ADDR,
            Reg::OutXH => OUT_X_H_ADDR,
            Reg::OutYL => OUT_Y_L_ADDR,
            Reg::OutYH => OUT_Y_H_ADDR,
            Reg::OutZL => OUT_Z_L_ADDR,
            Reg::OutZH => OUT_Z_H_ADDR,
            Reg::FifoCtrl => FIFO_CTRL_ADDR,
            Reg::FifoSamples => FIFO_SAMPLES_ADDR,
            Reg::TapThsX => TAP_THS_X_ADDR,
            Reg::TapThsY => TAP_THS_Y_ADDR,
            Reg::TapThsZ => TAP_THS_Z_ADDR,
            Reg::IntDur => INT_DUR_ADDR,
            Reg::WakeUpThs => WAKE_UP_THS_ADDR,
            Reg::WakeUpDur => WAKE_UP_DUR_ADDR,
            Reg::FreeFall => FREE_FALL_ADDR,
            Reg::StatusDup => STATUS_DUP_ADDR,
            Reg::WakeUpSrc => WAKE_UP_SRC_ADDR,
            Reg::TapSrc => TAP_SRC_ADDR,
            Reg::SixdSrc => SIXD_SRC_ADDR,
            Reg::AllIntSrc => ALL_INT_SRC_ADDR,
            Reg::XOfsUsr => X_OFS_USR_ADDR,
            Reg::YOfsUsr => Y_OFS_USR_ADDR,
            Reg::ZOfsUsr => Z_OFS_USR_ADDR,
            Reg::Ctrl7 => CTRL7_ADDR,
        }
    }

    /// The fixed bus address of the register.
    pub fn addr(self) -> (r: u8)
        ensures
            r == self.spec_addr(),
    {
        match self {
            Reg::OutTL => OUT_T_L_ADDR,
            Reg::OutTH => OUT_T_H_ADDR,
            Reg::WhoAmI => WHO_AM_I_ADDR,
            Reg::Ctrl1 => CTRL1_ADDR,
            Reg::Ctrl2 => CTRL2_ADDR,
            Reg::Ctrl3 => CTRL3_ADDR,
            Reg::Ctrl4Int1PadCtrl => CTRL4_INT1_PAD_CTRL_ADDR,
            Reg::Ctrl5Int2PadCtrl => CTRL5_INT2_PAD_CTRL_ADDR,
            Reg::Ctrl6 => CTRL6_ADDR,
            Reg::OutT => OUT_T_ADDR,
            Reg::Status => STATUS_ADDR,
            Reg::OutXL => OUT_X_L_ADDR,
            Reg::OutXH => OUT_X_H_ADDR,
            Reg::OutYL => OUT_Y_L_ADDR,
            Reg::OutYH => OUT_Y_H_ADDR,
            Reg::OutZL => OUT_Z_L_ADDR,
            Reg::OutZH => OUT_Z_H_ADDR,
            Reg::FifoCtrl => FIFO_CTRL_ADDR,
            Reg::FifoSamples => FIFO_SAMPLES_ADDR,
            Reg::TapThsX => TAP_THS_X_ADDR,
            Reg::TapThsY => TAP_THS_Y_ADDR,
            Reg::TapThsZ => TAP_THS_Z_ADDR,
            Reg::IntDur => INT_DUR_ADDR,
            Reg::WakeUpThs => WAKE_UP_THS_ADDR,
            Reg::WakeUpDur => WAKE_UP_DUR_ADDR,
            Reg::FreeFall => FREE_FALL_ADDR,
            Reg::StatusDup => STATUS_DUP_ADDR,
            Reg::WakeUpSrc => WAKE_UP_SRC_ADDR,
            Reg::TapSrc => TAP_SRC_ADDR,
            Reg::SixdSrc => SIXD_SRC_ADDR,
            Reg::AllIntSrc => ALL_INT_SRC_ADDR,
            Reg::XOfsUsr => X_OFS_USR_ADDR,
            Reg::YOfsUsr => Y_OFS_USR_ADDR,
            Reg::ZOfsUsr => Z_OFS_USR_ADDR,
            Reg::Ctrl7 => CTRL7_ADDR,
        }
    }
}

} // verus!
