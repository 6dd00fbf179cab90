use lsm303dlhc::accel;
use lsm303dlhc::accel::Register as A;
use lsm303dlhc::codec;
use lsm303dlhc::mag;
use lsm303dlhc::mag::Register as M;
use lsm303dlhc::{AccelOdr, MagOdr, Sensitivity};

#[test]
fn sub_device_addresses() {
    assert_eq!(accel::ADDRESS, 0b0011001);
    assert_eq!(mag::ADDRESS, 0b0011110);
}

#[test]
fn accel_register_addresses() {
    let table: Vec<(A, u8)> = vec![
        (A::CTRL_REG1_A, 0x20),
        (A::CTRL_REG2_A, 0x21),
        (A::CTRL_REG3_A, 0x22),
        (A::CTRL_REG4_A, 0x23),
        (A::CTRL_REG5_A, 0x24),
        (A::CTRL_REG6_A, 0x25),
        (A::REFERENCE_A, 0x26),
        (A::STATUS_REG_A, 0x27),
        (A::OUT_X_L_A, 0x28),
        (A::OUT_X_H_A, 0x29),
        (A::OUT_Y_L_A, 0x2A),
        (A::OUT_Y_H_A, 0x2B),
        (A::OUT_Z_L_A, 0x2C),
        (A::OUT_Z_H_A, 0x2D),
        (A::FIFO_CTRL_REG_A, 0x2E),
        (A::FIFO_SRC_REG_A, 0x2F),
        (A::INT1_CFG_A, 0x30),
        (A::INT1_SRC_A, 0x31),
        (A::INT1_THS_A, 0x32),
        (A::INT1_DURATION_A, 0x33),
        (A::INT2_CFG_A, 0x34),
        (A::INT2_SRC_A, 0x35),
        (A::INT2_THS_A, 0x36),
        (A::INT2_DURATION_A, 0x37),
        (A::CLICK_CFG_A, 0x38),
        (A::CLICK_SRC_A, 0x39),
        (A::CLICK_THS_A, 0x3A),
        (A::TIME_LIMIT_A, 0x3B),
        (A::TIME_LATENCY_A, 0x3C),
        (A::TIME_WINDOW_A, 0x3D),
    ];
    for (reg, expected) in table {
        assert_eq!(reg.addr(), expected);
    }
}

#[test]
fn mag_register_addresses() {
    let table: Vec<(M, u8)> = vec![
        (M::CRA_REG_M, 0x00),
        (M::CRB_REG_M, 0x01),
        (M::MR_REG_M, 0x02),
        (M::OUT_X_H_M, 0x03),
        (M::OUT_X_L_M, 0x04),
        (M::OUT_Z_H_M, 0x05),
        (M::OUT_Z_L_M, 0x06),
        (M::OUT_Y_H_M, 0x07),
        (M::OUT_Y_L_M, 0x08),
        (M::SR_REG_M, 0x09),
        (M::IRA_REG_M, 0x0A),
        (M::IRB_REG_M, 0x0B),
        (M::IRC_REG_M, 0x0C),
        (M::TEMP_OUT_H_M, 0x31),
        (M::TEMP_OUT_L_M, 0x32),
    ];
    for (reg, expected) in table {
        assert_eq!(reg.addr(), expected);
    }
}

#[test]
fn accel_rate_field_codes() {
    let table: Vec<(AccelOdr, u8)> = vec![
        (AccelOdr::Hz1, 0x10),
        (AccelOdr::Hz10, 0x20),
        (AccelOdr::Hz25, 0x30),
        (AccelOdr::Hz50, 0x40),
        (AccelOdr::Hz100, 0x50),
        (AccelOdr::Hz200, 0x60),
        (AccelOdr::Hz400, 0x70),
    ];
    for (odr, expected) in table {
        assert_eq!(odr.field(), expected);
    }
}

#[test]
fn mag_rate_field_codes() {
    let table: Vec<(MagOdr, u8)> = vec![
        (MagOdr::Hz0_75, 0x00),
        (MagOdr::Hz1_5, 0x04),
        (MagOdr::Hz3, 0x08),
        (MagOdr::Hz7_5, 0x0C),
        (MagOdr::Hz15, 0x10),
        (MagOdr::Hz30, 0x14),
        (MagOdr::Hz75, 0x18),
        (MagOdr::Hz220, 0x1C),
    ];
    for (odr, expected) in table {
        assert_eq!(odr.field(), expected);
    }
}

#[test]
fn sensitivity_codes_and_fields() {
    let table: Vec<(Sensitivity, u8, u8)> = vec![
        (Sensitivity::G1, 0, 0x00),
        (Sensitivity::G2, 1, 0x10),
        (Sensitivity::G4, 2, 0x20),
        (Sensitivity::G12, 3, 0x30),
    ];
    for (s, code, field) in table {
        assert_eq!(s.value(), code);
        assert_eq!(s.field(), field);
    }
}

#[test]
fn decode_i16_assembles_little_endian() {
    assert_eq!(codec::decode_i16(0x01, 0x00), 1);
    assert_eq!(codec::decode_i16(0x00, 0x01), 256);
    assert_eq!(codec::decode_i16(0xff, 0xff), -1);
    assert_eq!(codec::decode_i16(0x00, 0x80), -32768);
    assert_eq!(codec::decode_i16(0xff, 0x7f), 32767);
}

#[test]
fn decode_temp_shifts_arithmetically() {
    assert_eq!(codec::decode_temp_i16(0x00, 0x01), 16);
    assert_eq!(codec::decode_temp_i16(0x00, 0x00), 0);
    assert_eq!(codec::decode_temp_i16(0xf0, 0xff), -1);
    assert_eq!(codec::decode_temp_i16(0x00, 0x80), -2048);
    assert_eq!(codec::decode_temp_i16(0xf0, 0x7f), 2047);
}
