use lsm303dlhc::mock::{MockBus, MockStep, RecordedTransaction};
use lsm303dlhc::{AccelOdr, Lsm303dlhc, MagOdr, Sensitivity};

fn ok_write() -> MockStep {
    MockStep::Respond { resp: vec![] }
}

fn respond(bytes: &[u8]) -> MockStep {
    MockStep::Respond { resp: bytes.to_vec() }
}

fn init_script() -> Vec<MockStep> {
    vec![ok_write(), ok_write(), ok_write()]
}

fn ready_driver(extra: Vec<MockStep>) -> Lsm303dlhc<MockBus> {
    let mut script = init_script();
    script.extend(extra);
    match Lsm303dlhc::new(MockBus::new(script)) {
        Ok(d) => d,
        Err(code) => panic!("initialization failed with code {}", code),
    }
}

fn expect_write(rec: &RecordedTransaction, dev: u8, data: &[u8]) {
    match rec {
        RecordedTransaction::Write { dev: d, data: bytes } => {
            assert_eq!(*d, dev);
            assert_eq!(bytes.as_slice(), data);
        }
        _ => panic!("expected a plain write"),
    }
}

fn expect_write_read(rec: &RecordedTransaction, dev: u8, data: &[u8], count: usize) -> Vec<u8> {
    match rec {
        RecordedTransaction::WriteRead { dev: d, data: bytes, count: n, resp } => {
            assert_eq!(*d, dev);
            assert_eq!(bytes.as_slice(), data);
            assert_eq!(*n, count);
            resp.clone()
        }
        _ => panic!("expected a combined write-then-read"),
    }
}

#[test]
fn init_performs_three_writes_in_order() {
    let driver = ready_driver(vec![]);
    let recorded = &driver.bus().recorded;
    assert_eq!(recorded.len(), 3);
    expect_write(&recorded[0], 0b0011001, &[0x20, 0b0111_0111]);
    expect_write(&recorded[1], 0b0011110, &[0x02, 0b00]);
    expect_write(&recorded[2], 0b0011110, &[0x00, 0b1000_1000]);
}

#[test]
fn init_failure_on_first_write_propagates_error() {
    let r = Lsm303dlhc::new(MockBus::new(vec![MockStep::Fail { code: 7 }]));
    match r {
        Ok(_) => panic!("expected initialization to fail"),
        Err(code) => assert_eq!(code, 7),
    }
}

#[test]
fn init_failure_on_third_write_propagates_error() {
    let r = Lsm303dlhc::new(MockBus::new(vec![
        ok_write(),
        ok_write(),
        MockStep::Fail { code: 42 },
    ]));
    match r {
        Ok(_) => panic!("expected initialization to fail"),
        Err(code) => assert_eq!(code, 42),
    }
}

#[test]
fn init_failure_when_script_is_exhausted() {
    let r = Lsm303dlhc::new(MockBus::new(vec![]));
    match r {
        Ok(_) => panic!("expected initialization to fail"),
        Err(code) => assert_eq!(code, 0),
    }
}

#[test]
fn accel_decodes_little_endian_triple() {
    let mut driver = ready_driver(vec![respond(&[0x01, 0x00, 0x02, 0x00, 0x03, 0x00])]);
    let t = driver.accel().unwrap();
    assert_eq!(t.x, 1);
    assert_eq!(t.y, 2);
    assert_eq!(t.z, 3);
}

#[test]
fn accel_burst_sets_high_bit_of_address_byte() {
    let mut driver = ready_driver(vec![respond(&[0x01, 0x00, 0x02, 0x00, 0x03, 0x00])]);
    driver.accel().unwrap();
    let recorded = &driver.bus().recorded;
    assert_eq!(recorded.len(), 4);
    // OUT_X_L_A is 0x28; the burst address byte carries the auto-increment bit
    expect_write_read(&recorded[3], 0b0011001, &[0x28 | 0x80], 6);
}

#[test]
fn accel_decodes_negative_and_extreme_values() {
    let mut driver = ready_driver(vec![respond(&[0xff, 0xff, 0x00, 0x80, 0xff, 0x7f])]);
    let t = driver.accel().unwrap();
    assert_eq!(t.x, -1);
    assert_eq!(t.y, -32768);
    assert_eq!(t.z, 32767);
}

#[test]
fn accel_propagates_transport_error() {
    let mut driver = ready_driver(vec![MockStep::Fail { code: 9 }]);
    match driver.accel() {
        Ok(_) => panic!("expected the burst read to fail"),
        Err(code) => assert_eq!(code, 9),
    }
}

#[test]
fn mag_decodes_high_first_with_xzy_axis_order() {
    // the chip delivers X_H, X_L, Z_H, Z_L, Y_H, Y_L
    let mut driver = ready_driver(vec![respond(&[0x00, 0x01, 0x00, 0x03, 0x00, 0x02])]);
    let t = driver.mag().unwrap();
    assert_eq!(t.x, 1);
    assert_eq!(t.y, 2);
    assert_eq!(t.z, 3);
}

#[test]
fn mag_burst_starts_at_out_x_h_without_high_bit() {
    let mut driver = ready_driver(vec![respond(&[0x00, 0x01, 0x00, 0x03, 0x00, 0x02])]);
    driver.mag().unwrap();
    let recorded = &driver.bus().recorded;
    assert_eq!(recorded.len(), 4);
    expect_write_read(&recorded[3], 0b0011110, &[0x03], 6);
}

#[test]
fn temp_assembles_and_shifts_right_by_four() {
    let mut driver = ready_driver(vec![respond(&[0x00]), respond(&[0x01])]);
    let t = driver.temp().unwrap();
    assert_eq!(t, 16);
    let recorded = &driver.bus().recorded;
    assert_eq!(recorded.len(), 5);
    expect_write_read(&recorded[3], 0b0011110, &[0x32], 1);
    expect_write_read(&recorded[4], 0b0011110, &[0x31], 1);
}

#[test]
fn temp_shift_is_arithmetic_for_negative_readings() {
    let mut driver = ready_driver(vec![respond(&[0xf0]), respond(&[0xff])]);
    let t = driver.temp().unwrap();
    assert_eq!(t, -1);
}

#[test]
fn accel_odr_reads_then_writes_with_low_nibble_preserved() {
    let mut driver = ready_driver(vec![respond(&[0b1010_0101]), ok_write()]);
    driver.accel_odr(AccelOdr::Hz50).unwrap();
    let recorded = &driver.bus().recorded;
    // exactly one read followed by one write
    assert_eq!(recorded.len(), 5);
    // single-byte read: address byte 0x20 without the high bit
    expect_write_read(&recorded[3], 0b0011001, &[0x20], 1);
    // rate code 0b0100 in bits 4-7, prior low nibble 0b0101 kept
    expect_write(&recorded[4], 0b0011001, &[0x20, 0b0100_0101]);
}

#[test]
fn accel_odr_codes_for_every_rate() {
    let cases: Vec<(AccelOdr, u8)> = vec![
        (AccelOdr::Hz1, 0x17),
        (AccelOdr::Hz10, 0x27),
        (AccelOdr::Hz25, 0x37),
        (AccelOdr::Hz50, 0x47),
        (AccelOdr::Hz100, 0x57),
        (AccelOdr::Hz200, 0x67),
        (AccelOdr::Hz400, 0x77),
    ];
    for (odr, expected) in cases {
        let mut driver = ready_driver(vec![respond(&[0x07]), ok_write()]);
        driver.accel_odr(odr).unwrap();
        let recorded = &driver.bus().recorded;
        expect_write(&recorded[4], 0b0011001, &[0x20, expected]);
    }
}

#[test]
fn accel_odr_read_failure_issues_no_write() {
    let mut driver = ready_driver(vec![MockStep::Fail { code: 5 }]);
    match driver.accel_odr(AccelOdr::Hz1) {
        Ok(_) => panic!("expected the read to fail"),
        Err(code) => assert_eq!(code, 5),
    }
    assert_eq!(driver.bus().recorded.len(), 3);
}

#[test]
fn accel_odr_write_failure_propagates_after_the_read() {
    let mut driver = ready_driver(vec![respond(&[0x00]), MockStep::Fail { code: 6 }]);
    match driver.accel_odr(AccelOdr::Hz1) {
        Ok(_) => panic!("expected the write to fail"),
        Err(code) => assert_eq!(code, 6),
    }
    let recorded = &driver.bus().recorded;
    assert_eq!(recorded.len(), 4);
    expect_write_read(&recorded[3], 0b0011001, &[0x20], 1);
}

#[test]
fn mag_odr_reads_then_writes_bits_2_to_4() {
    let mut driver = ready_driver(vec![respond(&[0b1000_1000]), ok_write()]);
    driver.mag_odr(MagOdr::Hz220).unwrap();
    let recorded = &driver.bus().recorded;
    assert_eq!(recorded.len(), 5);
    expect_write_read(&recorded[3], 0b0011110, &[0x00], 1);
    // rate code 0b111 in bits 2-4; bit 7 (temperature enable) kept
    expect_write(&recorded[4], 0b0011110, &[0x00, 0b1001_1100]);
}

#[test]
fn mag_odr_codes_for_every_rate() {
    let cases: Vec<(MagOdr, u8)> = vec![
        (MagOdr::Hz0_75, 0xe3),
        (MagOdr::Hz1_5, 0xe7),
        (MagOdr::Hz3, 0xeb),
        (MagOdr::Hz7_5, 0xef),
        (MagOdr::Hz15, 0xf3),
        (MagOdr::Hz30, 0xf7),
        (MagOdr::Hz75, 0xfb),
        (MagOdr::Hz220, 0xff),
    ];
    for (odr, expected) in cases {
        let mut driver = ready_driver(vec![respond(&[0xe3]), ok_write()]);
        driver.mag_odr(odr).unwrap();
        let recorded = &driver.bus().recorded;
        expect_write(&recorded[4], 0b0011110, &[0x00, expected]);
    }
}

#[test]
fn set_accel_sensitivity_writes_bits_4_to_5() {
    let mut driver = ready_driver(vec![respond(&[0b0100_1001]), ok_write()]);
    driver.set_accel_sensitivity(Sensitivity::G12).unwrap();
    let recorded = &driver.bus().recorded;
    assert_eq!(recorded.len(), 5);
    expect_write_read(&recorded[3], 0b0011001, &[0x23], 1);
    expect_write(&recorded[4], 0b0011001, &[0x23, 0b0111_1001]);
}

#[test]
fn sensitivity_codes_for_every_range() {
    let cases: Vec<(Sensitivity, u8)> = vec![
        (Sensitivity::G1, 0xcf),
        (Sensitivity::G2, 0xdf),
        (Sensitivity::G4, 0xef),
        (Sensitivity::G12, 0xff),
    ];
    for (s, expected) in cases {
        let mut driver = ready_driver(vec![respond(&[0xcf]), ok_write()]);
        driver.set_accel_sensitivity(s).unwrap();
        let recorded = &driver.bus().recorded;
        expect_write(&recorded[4], 0b0011001, &[0x23, expected]);
    }
}

#[test]
fn mock_rejects_response_of_wrong_length() {
    // the burst asks for 6 bytes; a 5-byte scripted response is a script bug
    // and is reported as a transport failure
    let mut driver = ready_driver(vec![respond(&[0x01, 0x00, 0x02, 0x00, 0x03])]);
    match driver.accel() {
        Ok(_) => panic!("expected the mismatched response to fail"),
        Err(code) => assert_eq!(code, 0),
    }
}
