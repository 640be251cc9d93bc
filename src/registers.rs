//! The device's register map, and raw register access over the bus.
use vstd::prelude::*;

use crate::bus::{received, register_read, register_write, Bus, Transfer, DEVICE_ADDRESS};
use crate::QMC8553L;

verus! {

/// First of the six axis data registers (X, then Y, then Z, each two bytes).
pub const X_REGISTER: u8 = 0x00;

/// Low byte of the Y axis reading.
pub const Y_REGISTER: u8 = 0x02;

/// Low byte of the Z axis reading.
pub const Z_REGISTER: u8 = 0x04;

/// The status flags register.
pub const STATUS_REGISTER: u8 = 0x06;

/// Low byte of the temperature reading.
pub const TOUT_REGISTER: u8 = 0x07;

/// The second control register.
pub const CONTROL2_REGISTER: u8 = 0x0A;

/// The set/reset period register.
pub const SET_RESET_REGISTER: u8 = 0x0B;

/// Status: data skipped in continuous mode. Cleared by reading any register.
pub const DOR: u8 = 0b0100;

/// Status: a sensor channel is out of range.
pub const OVL: u8 = 0b0010;

/// Status: all three axes hold fresh data. Cleared by reading any register.
pub const DRDY: u8 = 0b0001;

/// Control2: soft reset pulse (clears itself).
pub const SOFT_RST: u8 = 0b1000_0000;

/// Control2: pointer rollover, so that burst reads walk the data registers.
pub const ROL_PNT: u8 = 0b0100_0000;

/// Control2: interrupt enable (not used by this driver).
pub const INT_ENB: u8 = 0b0000_0001;

/// The flags of the status register.
#[derive(Copy, Clone, Debug, PartialEq, Eq, Structural)]
pub struct Status {
    bits: u8,
}

/// The flags of the second control register.
#[derive(Copy, Clone, Debug, PartialEq, Eq, Structural)]
pub struct Control2 {
    bits: u8,
}

impl Status {
    pub closed spec fn view(&self) -> u8 {
        self.bits
    }

    /// The flags of a raw status byte; bits that name no flag are dropped.
    pub fn from_bits_truncate(raw: u8) -> (r: Status)
        ensures
            r@ == raw & (DOR | OVL | DRDY),
    {
        Status { bits: raw & (DOR | OVL | DRDY) }
    }

    pub fn bits(&self) -> (r: u8)
        ensures
            r == self@,
    {
        self.bits
    }

    /// Whether every flag of `flags` is set.
    pub fn contains(&self, flags: u8) -> (r: bool)
        ensures
            r == (self@ & flags == flags),
    {
        self.bits & flags == flags
    }
}

impl Control2 {
    pub closed spec fn view(&self) -> u8 {
        self.bits
    }

    /// The flags of a raw control byte; bits that name no flag are dropped.
    pub fn from_bits_truncate(raw: u8) -> (r: Control2)
        ensures
            r@ == raw & (SOFT_RST | ROL_PNT | INT_ENB),
    {
        Control2 { bits: raw & (SOFT_RST | ROL_PNT | INT_ENB) }
    }

    pub fn bits(&self) -> (r: u8)
        ensures
            r == self@,
    {
        self.bits
    }

    /// Whether every flag of `flags` is set.
    pub fn contains(&self, flags: u8) -> (r: bool)
        ensures
            r == (self@ & flags == flags),
    {
        self.bits & flags == flags
    }
}

/// The signed 16-bit value whose little-endian bytes are `lo`, `hi`.
pub open spec fn le_i16(lo: u8, hi: u8) -> i16 {
    (hi as int * 256 + lo as int - if hi >= 128 {
        65536int
    } else {
        0int
    }) as i16
}

/// The three axis readings of a six-byte burst from the X register:
/// X from bytes 0 and 1, Y from 2 and 3, Z from 4 and 5, each little-endian.
pub open spec fn axes_of(b: Seq<u8>) -> (i16, i16, i16) {
    (le_i16(b[0], b[1]), le_i16(b[2], b[3]), le_i16(b[4], b[5]))
}

/// The signed byte with the same bits as `b`.
pub open spec fn signed_byte(b: u8) -> i8 {
    (if b >= 128 {
        b as int - 256
    } else {
        b as int
    }) as i8
}

/// The unsigned byte with the same bits as `v`.
pub open spec fn unsigned_byte(v: i8) -> u8 {
    (if v < 0 {
        v as int + 256
    } else {
        v as int
    }) as u8
}

/// Reads a signed 16-bit value from its little-endian bytes.
pub fn i16_from_le(lo: u8, hi: u8) -> (r: i16)
    ensures
        r == le_i16(lo, hi),
{
    if hi < 128 {
        (hi as i16) * 256 + lo as i16
    } else {
        ((hi as i32 - 256) * 256 + lo as i32) as i16
    }
}

/// Reinterprets a byte as two's complement.
pub fn i8_from_byte(b: u8) -> (r: i8)
    ensures
        r == signed_byte(b),
{
    if b < 128 {
        b as i8
    } else {
        (b as i16 - 256) as i8
    }
}

/// The byte that holds `v` in two's complement.
pub fn byte_from_i8(v: i8) -> (r: u8)
    ensures
        r == unsigned_byte(v),
{
    if v < 0 {
        (v as i16 + 256) as u8
    } else {
        v as u8
    }
}

impl<B: Bus> QMC8553L<B> {
    /// Reads `buf.len()` bytes starting at register `reg`, relying on pointer
    /// rollover for more than one byte. Any bus access wakes the device.
    fn read_into(&mut self, reg: u8, buf: &mut [u8]) -> (r: Result<(), B::Error>)
        ensures
            final(buf)@.len() == old(buf)@.len(),
            final(self).history() == old(self).history().push(
                register_read(reg, final(buf)@, r is Ok),
            ),
            !final(self).standby(),
    {
        self.standby = false;
        let to_write = [reg];
        let r = self.i2c.write_read(DEVICE_ADDRESS, &to_write, buf);
        self.log = Ghost(
            self.log@.push(
                Transfer::WriteRead {
                    address: DEVICE_ADDRESS,
                    bytes: to_write@,
                    read: buf@,
                    ok: r is Ok,
                },
            ),
        );
        assert(to_write@ =~= seq![reg]);
        r
    }

    /// Reads the single register `reg`.
    pub(crate) fn read_raw(&mut self, reg: u8) -> (r: Result<u8, B::Error>)
        ensures
            received(final(self).history()).len() == 1,
            final(self).history() == old(self).history().push(
                register_read(reg, received(final(self).history()), r is Ok),
            ),
            r is Ok ==> r->Ok_0 == received(final(self).history())[0],
            !final(self).standby(),
    {
        let mut val = [0u8; 1];
        let r = self.read_into(reg, &mut val);
        match r {
            Ok(()) => Ok(val[0]),
            Err(e) => Err(e),
        }
    }

    /// Reads the signed little-endian 16-bit value whose low byte is at `reg`,
    /// in one transfer.
    pub(crate) fn read_reg16(&mut self, reg: u8) -> (r: Result<i16, B::Error>)
        ensures
            received(final(self).history()).len() == 2,
            final(self).history() == old(self).history().push(
                register_read(reg, received(final(self).history()), r is Ok),
            ),
            r is Ok ==> r->Ok_0 == le_i16(
                received(final(self).history())[0],
                received(final(self).history())[1],
            ),
            !final(self).standby(),
    {
        let mut buf = [0u8; 2];
        let r = self.read_into(reg, &mut buf);
        match r {
            Ok(()) => Ok(i16_from_le(buf[0], buf[1])),
            Err(e) => Err(e),
        }
    }

    /// Reads all three axes in one six-byte transfer from the X register on.
    pub(crate) fn read_data(&mut self) -> (r: Result<(i16, i16, i16), B::Error>)
        ensures
            received(final(self).history()).len() == 6,
            final(self).history() == old(self).history().push(
                register_read(X_REGISTER, received(final(self).history()), r is Ok),
            ),
            r is Ok ==> r->Ok_0 == axes_of(received(final(self).history())),
            !final(self).standby(),
    {
        let mut buf = [0u8; 6];
        let r = self.read_into(X_REGISTER, &mut buf);
        match r {
            Ok(()) => Ok(
                (
                    i16_from_le(buf[0], buf[1]),
                    i16_from_le(buf[2], buf[3]),
                    i16_from_le(buf[4], buf[5]),
                ),
            ),
            Err(e) => Err(e),
        }
    }

    /// Writes `val` to the register `reg`.
    pub(crate) fn write_raw(&mut self, reg: u8, val: u8) -> (r: Result<(), B::Error>)
        ensures
            final(self).history() == old(self).history().push(register_write(reg, val, r is Ok)),
            !final(self).standby(),
    {
        self.standby = false;
        let to_write = [reg, val];
        let r = self.i2c.write(DEVICE_ADDRESS, &to_write);
        self.log = Ghost(
            self.log@.push(Transfer::Write { address: DEVICE_ADDRESS, bytes: to_write@, ok: r is Ok }),
        );
        assert(to_write@ =~= seq![reg, val]);
        r
    }
}

} // verus!
