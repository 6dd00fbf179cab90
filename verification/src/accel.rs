//! Register map of the accelerometer sub-device.

use vstd::prelude::*;

verus! {

/// Fixed 7-bit bus address of the accelerometer sub-device.
pub const ADDRESS: u8 = 0b0011001;

/// Symbolic names of the accelerometer registers.
#[allow(non_camel_case_types)]
#[derive(Clone, Copy)]
pub enum Register {
    CTRL_REG1_A,
    CTRL_REG2_A,
    CTRL_REG3_A,
    CTRL_REG4_A,
    CTRL_REG5_A,
    CTRL_REG6_A,
    REFERENCE_A,
    STATUS_REG_A,
    OUT_X_L_A,
    OUT_X_H_A,
    OUT_Y_L_A,
    OUT_Y_H_A,
    OUT_Z_L_A,
    OUT_Z_H_A,
    FIFO_CTRL_REG_A,
    FIFO_SRC_REG_A,
    INT1_CFG_A,
    INT1_SRC_A,
    INT1_THS_A,
    INT1_DURATION_A,
    INT2_CFG_A,
    INT2_SRC_A,
    INT2_THS_A,
    INT2_DURATION_A,
    CLICK_CFG_A,
    CLICK_SRC_A,
    CLICK_THS_A,
    TIME_LIMIT_A,
    TIME_LATENCY_A,
    TIME_WINDOW_A,
}

impl Register {
    /// The one-byte address this register name stands for.
    pub open spec fn addr_spec(self) -> u8 {
        match self {
            Register::CTRL_REG1_A => 0x20,
            Register::CTRL_REG2_A => 0x21,
            Register::CTRL_REG3_A => 0x22,
            Register::CTRL_REG4_A => 0x23,
            Register::CTRL_REG5_A => 0x24,
            Register::CTRL_REG6_A => 0x25,
            Register::REFERENCE_A => 0x26,
            Register::STATUS_REG_A => 0x27,
            Register::OUT_X_L_A => 0x28,
            Register::OUT_X_H_A => 0x29,
            Register::OUT_Y_L_A => 0x2A,
            Register::OUT_Y_H_A => 0x2B,
            Register::OUT_Z_L_A => 0x2C,
            Register::OUT_Z_H_A => 0x2D,
            Register::FIFO_CTRL_REG_A => 0x2E,
            Register::FIFO_SRC_REG_A => 0x2F,
            Register::INT1_CFG_A => 0x30,
            Register::INT1_SRC_A => 0x31,
            Register::INT1_THS_A => 0x32,
            Register::INT1_DURATION_A => 0x33,
            Register::INT2_CFG_A => 0x34,
            Register::INT2_SRC_A => 0x35,
            Register::INT2_THS_A => 0x36,
            Register::INT2_DURATION_A => 0x37,
            Register::CLICK_CFG_A => 0x38,
            Register::CLICK_SRC_A => 0x39,
            Register::CLICK_THS_A => 0x3A,
            Register::TIME_LIMIT_A => 0x3B,
            Register::TIME_LATENCY_A => 0x3C,
            Register::TIME_WINDOW_A => 0x3D,
        }
    }

    /// Resolves this register name to its one-byte address.
    pub fn addr(&self) -> (a: u8)
        ensures
            a == self.addr_spec(),
    {
        match self {
            Register::CTRL_REG1_A => 0x20,
            Register::CTRL_REG2_A => 0x21,
            Register::CTRL_REG3_A => 0x22,
            Register::CTRL_REG4_A => 0x23,
            Register::CTRL_REG5_A => 0x24,
            Register::CTRL_REG6_A => 0x25,
            Register::REFERENCE_A => 0x26,
            Register::STATUS_REG_A => 0x27,
            Register::OUT_X_L_A => 0x28,
            Register::OUT_X_H_A => 0x29,
            Register::OUT_Y_L_A => 0x2A,
            Register::OUT_Y_H_A => 0x2B,
            Register::OUT_Z_L_A => 0x2C,
            Register::OUT_Z_H_A => 0x2D,
            Register::FIFO_CTRL_REG_A => 0x2E,
            Register::FIFO_SRC_REG_A => 0x2F,
            Register::INT1_CFG_A => 0x30,
            Register::INT1_SRC_A => 0x31,
            Register::INT1_THS_A => 0x32,
            Register::INT1_DURATION_A => 0x33,
            Register::INT2_CFG_A => 0x34,
            Register::INT2_SRC_A => 0x35,
            Register::INT2_THS_A => 0x36,
            Register::INT2_DURATION_A => 0x37,
            Register::CLICK_CFG_A => 0x38,
            Register::CLICK_SRC_A => 0x39,
            Register::CLICK_THS_A => 0x3A,
            Register::TIME_LIMIT_A => 0x3B,
            Register::TIME_LATENCY_A => 0x3C,
            Register::TIME_WINDOW_A => 0x3D,
        }
    }
}

} // verus!
