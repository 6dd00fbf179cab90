//! Register map of the magnetometer sub-device.

use vstd::prelude::*;

verus! {

/// Fixed 7-bit bus address of the magnetometer sub-device.
pub const ADDRESS: u8 = 0b0011110;

/// Symbolic names of the magnetometer registers.
#[allow(non_camel_case_types)]
#[derive(Clone, Copy)]
pub enum Register {
    CRA_REG_M,
    CRB_REG_M,
    MR_REG_M,
    OUT_X_H_M,
    OUT_X_L_M,
    OUT_Z_H_M,
    OUT_Z_L_M,
    OUT_Y_H_M,
    OUT_Y_L_M,
    SR_REG_M,
    IRA_REG_M,
    IRB_REG_M,
    IRC_REG_M,
    TEMP_OUT_H_M,
    TEMP_OUT_L_M,
}

impl Register {
    /// The one-byte address this register name stands for.
    pub open spec fn addr_spec(self) -> u8 {
        match self {
            Register::CRA_REG_M => 0x00,
            Register::CRB_REG_M => 0x01,
            Register::MR_REG_M => 0x02,
            Register::OUT_X_H_M => 0x03,
            Register::OUT_X_L_M => 0x04,
            Register::OUT_Z_H_M => 0x05,
            Register::OUT_Z_L_M => 0x06,
            Register::OUT_Y_H_M => 0x07,
            Register::OUT_Y_L_M => 0x08,
            Register::SR_REG_M => 0x09,
            Register::IRA_REG_M => 0x0A,
            Register::IRB_REG_M => 0x0B,
            Register::IRC_REG_M => 0x0C,
            Register::TEMP_OUT_H_M => 0x31,
            Register::TEMP_OUT_L_M => 0x32,
        }
    }

    /// Resolves this register name to its one-byte address.
    pub fn addr(&self) -> (a: u8)
        ensures
            a == self.addr_spec(),
    {
        match self {
            Register::CRA_REG_M => 0x00,
            Register::CRB_REG_M => 0x01,
            Register::MR_REG_M => 0x02,
            Register::OUT_X_H_M => 0x03,
            Register::OUT_X_L_M => 0x04,
            Register::OUT_Z_H_M => 0x05,
            Register::OUT_Z_L_M => 0x06,
            Register::OUT_Y_H_M => 0x07,
            Register::OUT_Y_L_M => 0x08,
            Register::SR_REG_M => 0x09,
            Register::IRA_REG_M => 0x0A,
            Register::IRB_REG_M => 0x0B,
            Register::IRC_REG_M => 0x0C,
            Register::TEMP_OUT_H_M => 0x31,
            Register::TEMP_OUT_L_M => 0x32,
        }
    }
}

} // verus!
