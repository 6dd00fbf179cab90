//! Driver for the LSM303DLHC combined accelerometer and magnetometer.
//!
//! The chip sits on a two-wire bus and exposes two sub-devices, each with its
//! own bus address and register map.  The driver issues register reads and
//! writes through a [`bus::Bus`] implementation, decodes raw register bytes
//! into signed 16-bit triples, and offers a small set of configuration
//! operations (output data rates, sensitivity range).

use vstd::prelude::*;

pub mod accel;
pub mod bus;
pub mod codec;
pub mod mag;
pub mod mock;

use crate::bus::{Bus, Transaction};

verus! {

/// The transaction that writes `value` to the accelerometer register `reg`.
pub open spec fn accel_write_txn(reg: accel::Register, value: u8) -> Transaction {
    Transaction::Write { dev: accel::ADDRESS, data: seq![reg.addr_spec(), value] }
}

/// The transaction that writes `value` to the magnetometer register `reg`.
pub open spec fn mag_write_txn(reg: mag::Register, value: u8) -> Transaction {
    Transaction::Write { dev: mag::ADDRESS, data: seq![reg.addr_spec(), value] }
}

/// The transaction that reads `count` bytes starting at the accelerometer
/// register `reg`, answered with `resp`.  For more than one byte the address
/// byte carries the high bit, which tells the chip to auto-increment its
/// register pointer across the burst; for a single byte it never does.
pub open spec fn accel_read_txn(reg: accel::Register, count: nat, resp: Seq<u8>) -> Transaction {
    Transaction::WriteRead {
        dev: accel::ADDRESS,
        data: seq![accel_read_addr(reg, count)],
        count,
        resp,
    }
}

/// The address byte a read of `count` bytes from the accelerometer register
/// `reg` puts on the wire: the register address, with the auto-increment bit
/// on top for a burst.
pub open spec fn accel_read_addr(reg: accel::Register, count: nat) -> u8 {
    if count > 1 {
        reg.addr_spec() | 0x80
    } else {
        reg.addr_spec()
    }
}

/// The transaction that reads `count` bytes starting at the magnetometer
/// register `reg`, answered with `resp`.  The address byte is sent as it is.
pub open spec fn mag_read_txn(reg: mag::Register, count: nat, resp: Seq<u8>) -> Transaction {
    Transaction::WriteRead {
        dev: mag::ADDRESS,
        data: seq![reg.addr_spec()],
        count,
        resp,
    }
}

/// XYZ triple of raw signed 16-bit sensor readings.
#[derive(Clone, Copy, Debug)]
pub struct I16x3 {
    /// X component
    pub x: i16,
    /// Y component
    pub y: i16,
    /// Z component
    pub z: i16,
}

/// Accelerometer output data rate.
#[derive(Clone, Copy, Debug)]
pub enum AccelOdr {
    /// 1 Hz
    Hz1,
    /// 10 Hz
    Hz10,
    /// 25 Hz
    Hz25,
    /// 50 Hz
    Hz50,
    /// 100 Hz
    Hz100,
    /// 200 Hz
    Hz200,
    /// 400 Hz
    Hz400,
}

impl AccelOdr {
    /// The 4-bit rate code of this data rate, in its place in bits 4-7 of
    /// `CTRL_REG1_A`.
    pub open spec fn field_spec(self) -> u8 {
        match self {
            AccelOdr::Hz1 => 0x10,
            AccelOdr::Hz10 => 0x20,
            AccelOdr::Hz25 => 0x30,
            AccelOdr::Hz50 => 0x40,
            AccelOdr::Hz100 => 0x50,
            AccelOdr::Hz200 => 0x60,
            AccelOdr::Hz400 => 0x70,
        }
    }

    /// The rate code of this data rate, shifted into bits 4-7.
    pub fn field(self) -> (f: u8)
        ensures
            f == self.field_spec(),
    {
        match self {
            AccelOdr::Hz1 => 0x10,
            AccelOdr::Hz10 => 0x20,
            AccelOdr::Hz25 => 0x30,
            AccelOdr::Hz50 => 0x40,
            AccelOdr::Hz100 => 0x50,
            AccelOdr::Hz200 => 0x60,
            AccelOdr::Hz400 => 0x70,
        }
    }
}

/// Magnetometer output data rate.
#[derive(Clone, Copy, Debug)]
pub enum MagOdr {
    /// 0.75 Hz
    Hz0_75,
    /// 1.5 Hz
    Hz1_5,
    /// 3 Hz
    Hz3,
    /// 7.5 Hz
    Hz7_5,
    /// 15 Hz
    Hz15,
    /// 30 Hz
    Hz30,
    /// 75 Hz
    Hz75,
    /// 220 Hz
    Hz220,
}

impl MagOdr {
    /// The 3-bit rate code of this data rate, in its place in bits 2-4 of
    /// `CRA_REG_M`.
    pub open spec fn field_spec(self) -> u8 {
        match self {
            MagOdr::Hz0_75 => 0x00,
            MagOdr::Hz1_5 => 0x04,
            MagOdr::Hz3 => 0x08,
            MagOdr::Hz7_5 => 0x0C,
            MagOdr::Hz15 => 0x10,
            MagOdr::Hz30 => 0x14,
            MagOdr::Hz75 => 0x18,
            MagOdr::Hz220 => 0x1C,
        }
    }

    /// The rate code of this data rate, shifted into bits 2-4.
    pub fn field(self) -> (f: u8)
        ensures
            f == self.field_spec(),
    {
        match self {
            MagOdr::Hz0_75 => 0x00,
            MagOdr::Hz1_5 => 0x04,
            MagOdr::Hz3 => 0x08,
            MagOdr::Hz7_5 => 0x0C,
            MagOdr::Hz15 => 0x10,
            MagOdr::Hz30 => 0x14,
            MagOdr::Hz75 => 0x18,
            MagOdr::Hz220 => 0x1C,
        }
    }
}

/// Accelerometer sensitivity (full-scale range).
#[derive(Clone, Copy, Debug)]
pub enum Sensitivity {
    /// Range: [-2g, +2g]. Sensitivity ~ 1 g / (1 << 14) LSB
    G1,
    /// Range: [-4g, +4g]. Sensitivity ~ 2 g / (1 << 14) LSB
    G2,
    /// Range: [-8g, +8g]. Sensitivity ~ 4 g / (1 << 14) LSB
    G4,
    /// Range: [-16g, +16g]. Sensitivity ~ 12 g / (1 << 14) LSB
    G12,
}

impl Sensitivity {
    /// The 2-bit code of this full-scale range.
    pub open spec fn value_spec(self) -> u8 {
        match self {
            Sensitivity::G1 => 0,
            Sensitivity::G2 => 1,
            Sensitivity::G4 => 2,
            Sensitivity::G12 => 3,
        }
    }

    /// The 2-bit code of this full-scale range.
    pub fn value(&self) -> (v: u8)
        ensures
            v == self.value_spec(),
    {
        match self {
            Sensitivity::G1 => 0,
            Sensitivity::G2 => 1,
            Sensitivity::G4 => 2,
            Sensitivity::G12 => 3,
        }
    }

    /// The 2-bit code of this full-scale range, in its place in bits 4-5 of
    /// `CTRL_REG4_A`.
    pub open spec fn field_spec(self) -> u8 {
        match self {
            Sensitivity::G1 => 0x00,
            Sensitivity::G2 => 0x10,
            Sensitivity::G4 => 0x20,
            Sensitivity::G12 => 0x30,
        }
    }

    /// The range code of this full-scale range, shifted into bits 4-5.
    pub fn field(self) -> (f: u8)
        ensures
            f == self.field_spec(),
    {
        let v = self.value();
        proof {
            assert(16 * self.value_spec() == self.field_spec());
        }
        v * 16
    }
}

/// The byte that `CTRL_REG1_A` holds after setting the data rate `odr` over a
/// prior register value `r`: bits 4-7 carry the rate code, bits 0-3 keep
/// their prior value.
pub open spec fn accel_odr_update(r: u8, odr: AccelOdr) -> u8 {
    (r & 0x0f) | odr.field_spec()
}

/// The byte that `CRA_REG_M` holds after setting the data rate `odr` over a
/// prior register value `r`: bits 2-4 carry the rate code, all other bits
/// keep their prior value.
pub open spec fn mag_odr_update(r: u8, odr: MagOdr) -> u8 {
    (r & 0xe3) | odr.field_spec()
}

/// The byte that `CTRL_REG4_A` holds after setting the sensitivity `s` over a
/// prior register value `r`: bits 4-5 carry the range code, all other bits
/// keep their prior value.
pub open spec fn sensitivity_update(r: u8, s: Sensitivity) -> u8 {
    (r & 0xcf) | s.field_spec()
}

/// LSM303DLHC driver.
///
/// Owns its bus transport for its whole lifetime; every operation takes the
/// driver exclusively, so all bus traffic is serialized through one caller.
pub struct Lsm303dlhc<B: Bus> {
    i2c: B,
}

impl<B: Bus> Lsm303dlhc<B> {
    /// The transactions this driver's transport has completed, oldest first.
    pub closed spec fn transactions(&self) -> Seq<Transaction> {
        self.i2c.log()
    }

    /// Borrows the bus transport the driver runs on.
    pub fn bus(&self) -> (b: &B)
        ensures
            b.log() == self.transactions(),
    {
        &self.i2c
    }

    /// Creates a new driver from a bus transport and initializes the chip:
    /// the accelerometer is enabled at 400 Hz on all three axes, the
    /// magnetometer is put in continuous-conversion mode, and the temperature
    /// sensor is switched on.  If any of the three writes fails, no driver is
    /// returned and the transport's error is handed back.
    pub fn new(i2c: B) -> (r: Result<Lsm303dlhc<B>, B::Error>)
        ensures
            r matches Ok(d) ==> d.transactions() == i2c.log().push(
                accel_write_txn(accel::Register::CTRL_REG1_A, 0b0111_0111),
            ).push(mag_write_txn(mag::Register::MR_REG_M, 0b00)).push(
                mag_write_txn(mag::Register::CRA_REG_M, 0b1000_1000),
            ),
    {
        let mut lsm303dlhc = Lsm303dlhc { i2c };

        // configure the accelerometer to operate at 400 Hz
        match lsm303dlhc.write_accel_register(accel::Register::CTRL_REG1_A, 0b0111_0111) {
            Ok(_) => (),
            Err(e) => {
                return Err(e);
            },
        }

        // configure the magnetometer to operate in continuous mode
        match lsm303dlhc.write_mag_register(mag::Register::MR_REG_M, 0b00) {
            Ok(_) => (),
            Err(e) => {
                return Err(e);
            },
        }

        // enable the temperature sensor
        match lsm303dlhc.write_mag_register(mag::Register::CRA_REG_M, 0b1000_1000) {
            Ok(_) => (),
            Err(e) => {
                return Err(e);
            },
        }

        Ok(lsm303dlhc)
    }

    /// Accelerometer measurements: one 6-byte auto-incrementing burst from
    /// `OUT_X_L_A`, each axis assembled little-endian.
    pub fn accel(&mut self) -> (r: Result<I16x3, B::Error>)
        ensures
            r matches Ok(t) ==> exists|resp: Seq<u8>|
                {
                    &&& resp.len() == 6
                    &&& final(self).transactions() == old(self).transactions().push(
                        #[trigger] accel_read_txn(accel::Register::OUT_X_L_A, 6, resp),
                    )
                    &&& t.x as int == codec::decode16(resp[0], resp[1])
                    &&& t.y as int == codec::decode16(resp[2], resp[3])
                    &&& t.z as int == codec::decode16(resp[4], resp[5])
                },
            r matches Err(_) ==> final(self).transactions() == old(self).transactions(),
    {
        let buffer = match self.read_accel_registers(accel::Register::OUT_X_L_A, 6) {
            Ok(b) => b,
            Err(e) => {
                return Err(e);
            },
        };

        let out = I16x3 {
            x: codec::decode_i16(buffer[0], buffer[1]),
            y: codec::decode_i16(buffer[2], buffer[3]),
            z: codec::decode_i16(buffer[4], buffer[5]),
        };
        proof {
            assert(self.transactions() == old(self).transactions().push(
                accel_read_txn(accel::Register::OUT_X_L_A, 6, buffer@),
            ));
        }
        Ok(out)
    }

    /// Magnetometer measurements: one 6-byte burst from `OUT_X_H_M`.  The
    /// chip delivers the bytes high-before-low and in the axis order X, Z, Y;
    /// each axis is assembled from its own pair.
    pub fn mag(&mut self) -> (r: Result<I16x3, B::Error>)
        ensures
            r matches Ok(t) ==> exists|resp: Seq<u8>|
                {
                    &&& resp.len() == 6
                    &&& final(self).transactions() == old(self).transactions().push(
                        #[trigger] mag_read_txn(mag::Register::OUT_X_H_M, 6, resp),
                    )
                    &&& t.x as int == codec::decode16(resp[1], resp[0])
                    &&& t.y as int == codec::decode16(resp[5], resp[4])
                    &&& t.z as int == codec::decode16(resp[3], resp[2])
                },
            r matches Err(_) ==> final(self).transactions() == old(self).transactions(),
    {
        let buffer = match self.read_mag_registers(mag::Register::OUT_X_H_M, 6) {
            Ok(b) => b,
            Err(e) => {
                return Err(e);
            },
        };

        let out = I16x3 {
            x: codec::decode_i16(buffer[1], buffer[0]),
            y: codec::decode_i16(buffer[5], buffer[4]),
            z: codec::decode_i16(buffer[3], buffer[2]),
        };
        proof {
            assert(self.transactions() == old(self).transactions().push(
                mag_read_txn(mag::Register::OUT_X_H_M, 6, buffer@),
            ));
        }
        Ok(out)
    }

    /// Temperature sensor measurement: `TEMP_OUT_L_M` and `TEMP_OUT_H_M` are
    /// read one byte at a time (the chip does not burst reliably across this
    /// pair), assembled little-endian and arithmetically shifted right by 4.
    ///
    /// - Resolution: 12-bit
    /// - Range: [-40, +85]
    pub fn temp(&mut self) -> (r: Result<i16, B::Error>)
        ensures
            r matches Ok(t) ==> exists|lo: u8, hi: u8|
                {
                    &&& final(self).transactions() == #[trigger] old(self).transactions().push(
                        mag_read_txn(mag::Register::TEMP_OUT_L_M, 1, seq![lo]),
                    ).push(mag_read_txn(mag::Register::TEMP_OUT_H_M, 1, seq![hi]))
                    &&& t as int == codec::decode_temp(lo, hi)
                },
            r matches Err(_) ==> {
                ||| final(self).transactions() == old(self).transactions()
                ||| exists|lo: u8|
                    final(self).transactions() == old(self).transactions().push(
                        #[trigger] mag_read_txn(mag::Register::TEMP_OUT_L_M, 1, seq![lo]),
                    )
            },
    {
        let temp_out_l = match self.read_mag_register(mag::Register::TEMP_OUT_L_M) {
            Ok(b) => b,
            Err(e) => {
                return Err(e);
            },
        };
        let temp_out_h = match self.read_mag_register(mag::Register::TEMP_OUT_H_M) {
            Ok(b) => b,
            Err(e) => {
                return Err(e);
            },
        };

        let t = codec::decode_temp_i16(temp_out_l, temp_out_h);
        proof {
            assert(self.transactions() == old(self).transactions().push(
                mag_read_txn(mag::Register::TEMP_OUT_L_M, 1, seq![temp_out_l]),
            ).push(mag_read_txn(mag::Register::TEMP_OUT_H_M, 1, seq![temp_out_h])));
        }
        Ok(t)
    }

    /// Sets the accelerometer output data rate: a read-modify-write of
    /// `CTRL_REG1_A` that puts the rate code in bits 4-7 and leaves bits 0-3
    /// as they were.
    pub fn accel_odr(&mut self, odr: AccelOdr) -> (r: Result<(), B::Error>)
        ensures
            r matches Ok(_) ==> exists|r0: u8|
                final(self).transactions() == #[trigger] old(self).transactions().push(
                    accel_read_txn(accel::Register::CTRL_REG1_A, 1, seq![r0]),
                ).push(accel_write_txn(accel::Register::CTRL_REG1_A, accel_odr_update(r0, odr))),
            r matches Err(_) ==> {
                ||| final(self).transactions() == old(self).transactions()
                ||| exists|r0: u8|
                    final(self).transactions() == old(self).transactions().push(
                        #[trigger] accel_read_txn(accel::Register::CTRL_REG1_A, 1, seq![r0]),
                    )
            },
    {
        self.modify_accel_register(
            accel::Register::CTRL_REG1_A,
            (|r: u8| -> (v: u8)
                ensures
                    v == accel_odr_update(r, odr),
                { (r & 0x0f) | odr.field() }),
            Ghost(|r: u8| accel_odr_update(r, odr)),
        )
    }

    /// Sets the magnetometer output data rate: a read-modify-write of
    /// `CRA_REG_M` that puts the rate code in bits 2-4 and leaves all other
    /// bits as they were.
    pub fn mag_odr(&mut self, odr: MagOdr) -> (r: Result<(), B::Error>)
        ensures
            r matches Ok(_) ==> exists|r0: u8|
                final(self).transactions() == #[trigger] old(self).transactions().push(
                    mag_read_txn(mag::Register::CRA_REG_M, 1, seq![r0]),
                ).push(mag_write_txn(mag::Register::CRA_REG_M, mag_odr_update(r0, odr))),
            r matches Err(_) ==> {
                ||| final(self).transactions() == old(self).transactions()
                ||| exists|r0: u8|
                    final(self).transactions() == old(self).transactions().push(
                        #[trigger] mag_read_txn(mag::Register::CRA_REG_M, 1, seq![r0]),
                    )
            },
    {
        self.modify_mag_register(
            mag::Register::CRA_REG_M,
            (|r: u8| -> (v: u8)
                ensures
                    v == mag_odr_update(r, odr),
                { (r & 0xe3) | odr.field() }),
            Ghost(|r: u8| mag_odr_update(r, odr)),
        )
    }

    /// Changes the sensitivity (full-scale range) of the accelerometer: a
    /// read-modify-write of `CTRL_REG4_A` that puts the range code in bits
    /// 4-5 and leaves all other bits as they were.
    pub fn set_accel_sensitivity(&mut self, sensitivity: Sensitivity) -> (r: Result<
        (),
        B::Error,
    >)
        ensures
            r matches Ok(_) ==> exists|r0: u8|
                final(self).transactions() == #[trigger] old(self).transactions().push(
                    accel_read_txn(accel::Register::CTRL_REG4_A, 1, seq![r0]),
                ).push(
                    accel_write_txn(
                        accel::Register::CTRL_REG4_A,
                        sensitivity_update(r0, sensitivity),
                    ),
                ),
            r matches Err(_) ==> {
                ||| final(self).transactions() == old(self).transactions()
                ||| exists|r0: u8|
                    final(self).transactions() == old(self).transactions().push(
                        #[trigger] accel_read_txn(accel::Register::CTRL_REG4_A, 1, seq![r0]),
                    )
            },
    {
        self.modify_accel_register(
            accel::Register::CTRL_REG4_A,
            (|r: u8| -> (v: u8)
                ensures
                    v == sensitivity_update(r, sensitivity),
                { (r & 0xcf) | sensitivity.field() }),
            Ghost(|r: u8| sensitivity_update(r, sensitivity)),
        )
    }

    /// Read-modify-write of the accelerometer register `reg`: one read
    /// transaction, then one write transaction carrying the transformed byte.
    /// The ghost transform `t` pins down what `f` computes.
    fn modify_accel_register<F: FnOnce(u8) -> u8>(
        &mut self,
        reg: accel::Register,
        f: F,
        Ghost(t): Ghost<spec_fn(u8) -> u8>,
    ) -> (r: Result<(), B::Error>)
        requires
            forall|x: u8| call_requires(f, (x,)),
            forall|x: u8, v: u8| #[trigger] call_ensures(f, (x,), v) ==> v == t(x),
        ensures
            r matches Ok(_) ==> exists|r0: u8|
                final(self).transactions() == #[trigger] old(self).transactions().push(
                    accel_read_txn(reg, 1, seq![r0]),
                ).push(accel_write_txn(reg, t(r0))),
            r matches Err(_) ==> {
                ||| final(self).transactions() == old(self).transactions()
                ||| exists|r0: u8|
                    final(self).transactions() == old(self).transactions().push(
                        #[trigger] accel_read_txn(reg, 1, seq![r0]),
                    )
            },
    {
        let r0 = match self.read_accel_register(reg) {
            Ok(b) => b,
            Err(e) => {
                return Err(e);
            },
        };
        let v = f(r0);
        match self.write_accel_register(reg, v) {
            Ok(_) => {
                proof {
                    assert(self.transactions() == old(self).transactions().push(
                        accel_read_txn(reg, 1, seq![r0]),
                    ).push(accel_write_txn(reg, t(r0))));
                }
                Ok(())
            },
            Err(e) => Err(e),
        }
    }

    /// Read-modify-write of the magnetometer register `reg`: one read
    /// transaction, then one write transaction carrying the transformed byte.
    /// The ghost transform `t` pins down what `f` computes.
    fn modify_mag_register<F: FnOnce(u8) -> u8>(
        &mut self,
        reg: mag::Register,
        f: F,
        Ghost(t): Ghost<spec_fn(u8) -> u8>,
    ) -> (r: Result<(), B::Error>)
        requires
            forall|x: u8| call_requires(f, (x,)),
            forall|x: u8, v: u8| #[trigger] call_ensures(f, (x,), v) ==> v == t(x),
        ensures
            r matches Ok(_) ==> exists|r0: u8|
                final(self).transactions() == #[trigger] old(self).transactions().push(
                    mag_read_txn(reg, 1, seq![r0]),
                ).push(mag_write_txn(reg, t(r0))),
            r matches Err(_) ==> {
                ||| final(self).transactions() == old(self).transactions()
                ||| exists|r0: u8|
                    final(self).transactions() == old(self).transactions().push(
                        #[trigger] mag_read_txn(reg, 1, seq![r0]),
                    )
            },
    {
        let r0 = match self.read_mag_register(reg) {
            Ok(b) => b,
            Err(e) => {
                return Err(e);
            },
        };
        let v = f(r0);
        match self.write_mag_register(reg, v) {
            Ok(_) => {
                proof {
                    assert(self.transactions() == old(self).transactions().push(
                        mag_read_txn(reg, 1, seq![r0]),
                    ).push(mag_write_txn(reg, t(r0))));
                }
                Ok(())
            },
            Err(e) => Err(e),
        }
    }

    /// Writes `byte` to the accelerometer register `reg`.
    fn write_accel_register(&mut self, reg: accel::Register, byte: u8) -> (r: Result<
        (),
        B::Error,
    >)
        ensures
            r matches Ok(_) ==> final(self).transactions() == old(self).transactions().push(
                accel_write_txn(reg, byte),
            ),
            r matches Err(_) ==> final(self).transactions() == old(self).transactions(),
    {
        let mut data: Vec<u8> = Vec::new();
        data.push(reg.addr());
        data.push(byte);
        proof {
            assert(data@ =~= seq![reg.addr_spec(), byte]);
        }
        self.i2c.write(accel::ADDRESS, &data)
    }

    /// Writes `byte` to the magnetometer register `reg`.
    fn write_mag_register(&mut self, reg: mag::Register, byte: u8) -> (r: Result<(), B::Error>)
        ensures
            r matches Ok(_) ==> final(self).transactions() == old(self).transactions().push(
                mag_write_txn(reg, byte),
            ),
            r matches Err(_) ==> final(self).transactions() == old(self).transactions(),
    {
        let mut data: Vec<u8> = Vec::new();
        data.push(reg.addr());
        data.push(byte);
        proof {
            assert(data@ =~= seq![reg.addr_spec(), byte]);
        }
        self.i2c.write(mag::ADDRESS, &data)
    }

    /// Reads `count` contiguous bytes starting at the accelerometer register
    /// `reg`.  For more than one byte the address byte sent on the wire has
    /// its high bit set, which the chip requires for an auto-incrementing
    /// burst; for a single byte the address is sent bare.
    fn read_accel_registers(&mut self, reg: accel::Register, count: usize) -> (r: Result<
        Vec<u8>,
        B::Error,
    >)
        ensures
            r matches Ok(bytes) ==> {
                &&& bytes@.len() == count
                &&& final(self).transactions() == old(self).transactions().push(
                    accel_read_txn(reg, count as nat, bytes@),
                )
            },
            r matches Err(_) ==> final(self).transactions() == old(self).transactions(),
    {
        let mut data: Vec<u8> = Vec::new();
        if count > 1 {
            data.push(reg.addr() | 0x80);
        } else {
            data.push(reg.addr());
        }
        proof {
            assert(data@ =~= seq![accel_read_addr(reg, count as nat)]);
        }
        self.i2c.write_read(accel::ADDRESS, &data, count)
    }

    /// Reads the accelerometer register `reg`.
    fn read_accel_register(&mut self, reg: accel::Register) -> (r: Result<u8, B::Error>)
        ensures
            r matches Ok(b) ==> final(self).transactions() == old(self).transactions().push(
                accel_read_txn(reg, 1, seq![b]),
            ),
            r matches Err(_) ==> final(self).transactions() == old(self).transactions(),
    {
        let bytes = match self.read_accel_registers(reg, 1) {
            Ok(b) => b,
            Err(e) => {
                return Err(e);
            },
        };
        let b = bytes[0];
        proof {
            assert(bytes@ =~= seq![b]);
        }
        Ok(b)
    }

    /// Reads `count` contiguous bytes starting at the magnetometer register
    /// `reg`.
    ///
    /// The magnetometer's address auto-increment is only well-defined from
    /// `OUT_X_H_M` onwards, so a burst may start nowhere else.
    fn read_mag_registers(&mut self, reg: mag::Register, count: usize) -> (r: Result<
        Vec<u8>,
        B::Error,
    >)
        requires
            count > 1 ==> reg == mag::Register::OUT_X_H_M,
        ensures
            r matches Ok(bytes) ==> {
                &&& bytes@.len() == count
                &&& final(self).transactions() == old(self).transactions().push(
                    mag_read_txn(reg, count as nat, bytes@),
                )
            },
            r matches Err(_) ==> final(self).transactions() == old(self).transactions(),
    {
        let mut data: Vec<u8> = Vec::new();
        data.push(reg.addr());
        proof {
            assert(data@ =~= seq![reg.addr_spec()]);
        }
        self.i2c.write_read(mag::ADDRESS, &data, count)
    }

    /// Reads the magnetometer register `reg`.
    fn read_mag_register(&mut self, reg: mag::Register) -> (r: Result<u8, B::Error>)
        ensures
            r matches Ok(b) ==> final(self).transactions() == old(self).transactions().push(
                mag_read_txn(reg, 1, seq![b]),
            ),
            r matches Err(_) ==> final(self).transactions() == old(self).transactions(),
    {
        let bytes = match self.read_mag_registers(reg, 1) {
            Ok(b) => b,
            Err(e) => {
                return Err(e);
            },
        };
        let b = bytes[0];
        proof {
            assert(bytes@ =~= seq![b]);
        }
        Ok(b)
    }
}

/// Setting a field over a byte whose field bits were first cleared leaves
/// exactly the field's bits carrying the new code and every other bit as it
/// was.
proof fn lemma_masked_update(prior: u8, keep: u8, mask: u8, b: u8)
    by (bit_vector)
    requires
        mask == !keep,
        b & mask == b,
    ensures
        ((prior & keep) | b) & mask == b,
        ((prior & keep) | b) & keep == prior & keep,
{
}

/// Law: for every accelerometer data rate and every prior register value,
/// the byte written to `CTRL_REG1_A` carries the rate code in bits 4-7 and
/// keeps bits 0-3 unchanged.
pub proof fn lemma_accel_odr_update(prior: u8, odr: AccelOdr)
    ensures
        accel_odr_update(prior, odr) & 0xf0 == odr.field_spec(),
        accel_odr_update(prior, odr) & 0x0f == prior & 0x0f,
{
    let b = odr.field_spec();
    assert(0xf0u8 == !0x0fu8 && 0x10u8 & 0xf0 == 0x10 && 0x20u8 & 0xf0 == 0x20 && 0x30u8 & 0xf0
        == 0x30 && 0x40u8 & 0xf0 == 0x40 && 0x50u8 & 0xf0 == 0x50 && 0x60u8 & 0xf0 == 0x60
        && 0x70u8 & 0xf0 == 0x70) by (bit_vector);
    lemma_masked_update(prior, 0x0f, 0xf0, b);
}

/// Law: for every magnetometer data rate and every prior register value, the
/// byte written to `CRA_REG_M` carries the rate code in bits 2-4 and keeps
/// all other bits unchanged.
pub proof fn lemma_mag_odr_update(prior: u8, odr: MagOdr)
    ensures
        mag_odr_update(prior, odr) & 0x1c == odr.field_spec(),
        mag_odr_update(prior, odr) & 0xe3 == prior & 0xe3,
{
    let b = odr.field_spec();
    assert(0x1cu8 == !0xe3u8 && 0x00u8 & 0x1c == 0x00 && 0x04u8 & 0x1c == 0x04 && 0x08u8 & 0x1c
        == 0x08 && 0x0cu8 & 0x1c == 0x0c && 0x10u8 & 0x1c == 0x10 && 0x14u8 & 0x1c == 0x14
        && 0x18u8 & 0x1c == 0x18 && 0x1cu8 & 0x1c == 0x1c) by (bit_vector);
    lemma_masked_update(prior, 0xe3, 0x1c, b);
}

/// Law: for every sensitivity and every prior register value, the byte
/// written to `CTRL_REG4_A` carries the range code in bits 4-5 and keeps all
/// other bits unchanged.
pub proof fn lemma_sensitivity_update(prior: u8, s: Sensitivity)
    ensures
        sensitivity_update(prior, s) & 0x30 == s.field_spec(),
        sensitivity_update(prior, s) & 0xcf == prior & 0xcf,
{
    let b = s.field_spec();
    assert(0x30u8 == !0xcfu8 && 0x00u8 & 0x30 == 0x00 && 0x10u8 & 0x30 == 0x10 && 0x20u8 & 0x30
        == 0x20 && 0x30u8 & 0x30 == 0x30) by (bit_vector);
    lemma_masked_update(prior, 0xcf, 0x30, b);
}

/// Law: the accelerometer data-rate codes are injective: distinct rates are
/// written as distinct bit patterns.
pub proof fn lemma_accel_odr_injective(a: AccelOdr, b: AccelOdr)
    ensures
        a.field_spec() == b.field_spec() ==> a == b,
{
}

/// Law: the magnetometer data-rate codes are injective: distinct rates are
/// written as distinct bit patterns.
pub proof fn lemma_mag_odr_injective(a: MagOdr, b: MagOdr)
    ensures
        a.field_spec() == b.field_spec() ==> a == b,
{
}

/// Law: the sensitivity codes are injective: distinct ranges are written as
/// distinct bit patterns.
pub proof fn lemma_sensitivity_injective(a: Sensitivity, b: Sensitivity)
    ensures
        a.field_spec() == b.field_spec() ==> a == b,
{
}

/// Law: a multi-byte read from the accelerometer always sets the high bit of
/// the address byte sent on the wire; a single-byte read never does.
pub proof fn lemma_accel_read_addr_high_bit(reg: accel::Register, count: nat)
    ensures
        count > 1 ==> accel_read_addr(reg, count) & 0x80 == 0x80,
        count <= 1 ==> accel_read_addr(reg, count) & 0x80 == 0,
{
    let a = reg.addr_spec();
    assert(a < 0x80);
    assert((a | 0x80) & 0x80 == 0x80) by (bit_vector);
    assert(a < 0x80 ==> a & 0x80 == 0) by (bit_vector);
}

} // verus!
