//! Control and read from the QMC5883L magnetometer.
//!
//! [`QMC8553L`] drives the device over any [`bus::Bus`]. Each driver keeps, as a
//! ghost value, the list of transfers it issued ([`QMC8553L::history`]); the
//! contracts of its operations say which transfers each one adds and how the
//! bytes it read become its result.
use vstd::prelude::*;

pub mod bus;
pub mod registers;
pub mod settings;

use crate::bus::{received, register_read, register_write, wrote_in_order, Bus, Transfer};
use crate::registers::{
    le_i16, signed_byte, unsigned_byte, Control2, Status, CONTROL2_REGISTER, DRDY, DOR, INT_ENB,
    OVL, ROL_PNT, SET_RESET_REGISTER, SOFT_RST, STATUS_REGISTER, TOUT_REGISTER, X_REGISTER,
    Y_REGISTER, Z_REGISTER,
};
use crate::settings::{
    decode_settings, full_scale_defined, settings_byte, InvalidEncoding, Settings,
    SETTINGS_REGISTER,
};

verus! {

/// An axis of the sensor.
#[derive(Copy, Clone, Debug, PartialEq, Eq, Structural)]
pub enum Axis {
    X,
    Y,
    Z,
}

/// The register that holds the low byte of `axis`'s reading.
pub open spec fn axis_register(axis: Axis) -> u8 {
    match axis {
        Axis::X => X_REGISTER,
        Axis::Y => Y_REGISTER,
        Axis::Z => Z_REGISTER,
    }
}

impl Axis {
    /// The register that holds the low byte of this axis' reading.
    pub fn register(self) -> (r: u8)
        ensures
            r == axis_register(self),
    {
        match self {
            Axis::X => X_REGISTER,
            Axis::Y => Y_REGISTER,
            Axis::Z => Z_REGISTER,
        }
    }
}

/// Why reading the settings failed.
#[derive(Debug, PartialEq, Eq)]
pub enum Error<E> {
    /// The bus reported a failure.
    Transport(E),
    /// The settings register held a byte that names no settings.
    Encoding(InvalidEncoding),
}

/// Whether `r` is anything but a failure the bus reported.
pub open spec fn bus_ok<T, E>(r: Result<T, Error<E>>) -> bool {
    !(r is Err && r->Err_0 is Transport)
}

/// What `settings` returns when the settings register reads `b`.
pub open spec fn settings_result<E>(b: u8) -> Result<Settings, Error<E>> {
    match decode_settings(b) {
        Ok(s) => Ok(s),
        Err(e) => Err(Error::Encoding(e)),
    }
}

/// The byte that `to_standby` writes when the settings register reads `b`:
/// both mode bits cleared, the field bits kept.
pub open spec fn standby_byte(b: u8) -> u8 {
    b & 0b1111_1100
}

/// Going to standby keeps the settings: the byte written back decodes to what
/// the byte read decoded to, with continuous measurement off.
pub proof fn lemma_standby_keeps_settings(b: u8)
    requires
        full_scale_defined(b),
    ensures
        decode_settings(standby_byte(b)) == decode_settings(b),
        standby_byte(b) & crate::settings::CONTINUOUS_MODE == 0,
{
    let c = b & 0xfcu8;
    assert(((c >> 6u8) & 3u8 == (b >> 6u8) & 3u8) && ((c >> 4u8) & 3u8 == (b >> 4u8) & 3u8) && ((c
        >> 2u8) & 3u8 == (b >> 2u8) & 3u8) && (c & 1u8 == 0)) by (bit_vector)
        requires
            c == b & 0xfcu8,
    ;
}

/// The register writes of a reset, in order, as (register, value).
pub open spec fn reset_writes() -> Seq<(u8, u8)> {
    seq![(CONTROL2_REGISTER, SOFT_RST), (CONTROL2_REGISTER, ROL_PNT)]
}

/// The QMC5883L magnetometer on a bus `B`.
pub struct QMC8553L<B: Bus> {
    i2c: B,
    standby: bool,
    log: Ghost<Seq<Transfer>>,
}

impl<B: Bus> QMC8553L<B> {
    /// Every transfer this driver has issued on the bus, oldest first.
    pub closed spec fn history(&self) -> Seq<Transfer> {
        self.log@
    }

    /// Whether the driver believes the device to be in standby.
    pub closed spec fn standby(&self) -> bool {
        self.standby
    }

    /// Initialises the device with the given [`Settings`]: a soft reset, then
    /// the settings. The device is not in standby afterwards.
    pub fn new(i2c: B, set: Settings) -> (r: Result<Self, B::Error>)
        ensures
            r is Ok ==> r->Ok_0.history() == seq![
                register_write(CONTROL2_REGISTER, SOFT_RST, true),
                register_write(CONTROL2_REGISTER, ROL_PNT, true),
                register_write(SETTINGS_REGISTER, settings_byte(set), true),
            ],
            r is Ok ==> !r->Ok_0.standby(),
    {
        let ghost h0 = Seq::<Transfer>::empty();
        let mut to_ret = QMC8553L { i2c, standby: false, log: Ghost(h0) };
        match to_ret.reset() {
            Ok(()) => {},
            Err(e) => {
                return Err(e);
            },
        }
        assert(to_ret.history().len() == 2);
        assert(to_ret.history()[h0.len() + 0int] == register_write(
            CONTROL2_REGISTER,
            SOFT_RST,
            true,
        ));
        assert(to_ret.history()[h0.len() + 1int] == register_write(
            CONTROL2_REGISTER,
            ROL_PNT,
            true,
        ));
        match to_ret.change_settings(set) {
            Ok(()) => {},
            Err(e) => {
                return Err(e);
            },
        }
        assert(to_ret.history() =~= seq![
            register_write(CONTROL2_REGISTER, SOFT_RST, true),
            register_write(CONTROL2_REGISTER, ROL_PNT, true),
            register_write(SETTINGS_REGISTER, settings_byte(set), true),
        ]);
        Ok(to_ret)
    }

    /// Performs a soft reset: the reset pulse, then pointer rollover enabled
    /// again, as two writes to the control register. Stops at the first write
    /// the bus refuses. This does not place the device in standby.
    pub fn reset(&mut self) -> (r: Result<(), B::Error>)
        ensures
            wrote_in_order(old(self).history(), final(self).history(), reset_writes(), r is Ok),
            !final(self).standby(),
    {
        let ghost h0 = self.history();
        let c = Control2::from_bits_truncate(SOFT_RST);
        assert(SOFT_RST & (SOFT_RST | ROL_PNT | INT_ENB) == SOFT_RST) by (bit_vector);
        let r1 = self.set_control2(c);
        if r1.is_err() {
            assert(self.history().subrange(0, h0.len() as int) =~= h0);
            return r1;
        }
        let c = Control2::from_bits_truncate(ROL_PNT);
        assert(ROL_PNT & (SOFT_RST | ROL_PNT | INT_ENB) == ROL_PNT) by (bit_vector);
        let r2 = self.set_control2(c);
        assert(self.history().subrange(0, h0.len() as int) =~= h0);
        assert(self.history()[h0.len() as int] == register_write(CONTROL2_REGISTER, SOFT_RST, true));
        assert(self.history()[h0.len() + 1int] == register_write(
            CONTROL2_REGISTER,
            ROL_PNT,
            r2 is Ok,
        ));
        r2
    }

    /// Places the device in standby to save power: reads the settings and
    /// writes them back with the measurement mode bits cleared. Any later bus
    /// access wakes the device.
    pub fn to_standby(&mut self) -> (r: Result<(), Error<B::Error>>)
        ensures
            final(self).history().len() > old(self).history().len(),
            ({
                let n = old(self).history().len();
                let b = final(self).settings_read(n as int);
                let read_ok = !(r is Err && r->Err_0 is Transport && final(self).history().len()
                    == n + 1);
                let h1 = old(self).history().push(
                    register_read(SETTINGS_REGISTER, seq![b], read_ok),
                );
                if !read_ok {
                    final(self).history() == h1
                } else if !full_scale_defined(b) {
                    &&& final(self).history() == h1
                    &&& r == Err::<(), Error<B::Error>>(
                        Error::Encoding(InvalidEncoding { value: b }),
                    )
                } else {
                    final(self).history() == h1.push(
                        register_write(SETTINGS_REGISTER, standby_byte(b), r is Ok),
                    )
                }
            }),
            final(self).standby() == r is Ok,
    {
        let ghost n = self.history().len();
        let r = self.settings();
        let ghost b = received(self.history())[0];
        assert(self.settings_read(n as int) == b);
        assert(received(self.history()) =~= seq![b]);
        let s = match r {
            Ok(s) => s,
            Err(e) => {
                return Err(e);
            },
        };
        let raw = s.to_byte();
        proof {
            crate::settings::lemma_reencode(b);
            assert(((b & 0xfcu8) | 1u8) & 0xfcu8 == b & 0xfcu8) by (bit_vector);
        }
        let set_val = raw & 0b1111_1100;
        let w = self.write_raw(SETTINGS_REGISTER, set_val);
        assert(self.settings_read(n as int) == b);
        match w {
            Ok(()) => {},
            Err(e) => {
                return Err(Error::Transport(e));
            },
        }
        self.standby = true;
        Ok(())
    }

    /// The byte that the settings read at position `i` of the history returned.
    pub open spec fn settings_read(&self, i: int) -> u8 {
        match self.history()[i] {
            Transfer::WriteRead { read, .. } => read[0],
            Transfer::Write { .. } => 0,
        }
    }

    /// Whether the driver believes the device to be in standby.
    ///
    /// This is tracked in software only: asking the device would wake it. It
    /// is advisory: after a bus failure in the middle of `to_standby` the
    /// device may be in either state.
    pub fn on_standby(&self) -> (r: bool)
        ensures
            r == self.standby(),
    {
        self.standby
    }

    /// Whether the device has fresh data on all three axes. Reading the
    /// status register clears the flag on the device.
    pub fn is_ready(&mut self) -> (r: Result<bool, B::Error>)
        ensures
            received(final(self).history()).len() == 1,
            final(self).history() == old(self).history().push(
                register_read(STATUS_REGISTER, received(final(self).history()), r is Ok),
            ),
            r is Ok ==> r->Ok_0 == (received(final(self).history())[0] & DRDY == DRDY),
            !final(self).standby(),
    {
        match self.get_status() {
            Ok(st) => {
                let ghost b = received(self.history())[0];
                assert((b & (DOR | OVL | DRDY)) & DRDY == DRDY <==> b & DRDY == DRDY)
                    by (bit_vector);
                Ok(st.contains(DRDY))
            },
            Err(e) => Err(e),
        }
    }

    /// Reads all three axes in one transfer, as (X, Y, Z).
    ///
    /// Check [`Self::is_ready`] first.
    pub fn read_all(&mut self) -> (r: Result<(i16, i16, i16), B::Error>)
        ensures
            received(final(self).history()).len() == 6,
            final(self).history() == old(self).history().push(
                register_read(X_REGISTER, received(final(self).history()), r is Ok),
            ),
            r is Ok ==> r->Ok_0 == crate::registers::axes_of(received(final(self).history())),
            !final(self).standby(),
    {
        self.read_data()
    }

    /// Reads one axis.
    ///
    /// Check [`Self::is_ready`] first.
    pub fn read(&mut self, axis: Axis) -> (r: Result<i16, B::Error>)
        ensures
            received(final(self).history()).len() == 2,
            final(self).history() == old(self).history().push(
                register_read(axis_register(axis), received(final(self).history()), r is Ok),
            ),
            r is Ok ==> r->Ok_0 == le_i16(
                received(final(self).history())[0],
                received(final(self).history())[1],
            ),
            !final(self).standby(),
    {
        self.read_reg16(axis.register())
    }

    /// Reads the temperature. It is consistent with itself but not
    /// calibrated to an absolute scale.
    pub fn get_temp(&mut self) -> (r: Result<i16, B::Error>)
        ensures
            received(final(self).history()).len() == 2,
            final(self).history() == old(self).history().push(
                register_read(TOUT_REGISTER, received(final(self).history()), r is Ok),
            ),
            r is Ok ==> r->Ok_0 == le_i16(
                received(final(self).history())[0],
                received(final(self).history())[1],
            ),
            !final(self).standby(),
    {
        self.read_reg16(TOUT_REGISTER)
    }

    /// Reads the [`Settings`] currently on the device.
    pub fn settings(&mut self) -> (r: Result<Settings, Error<B::Error>>)
        ensures
            received(final(self).history()).len() == 1,
            final(self).history() == old(self).history().push(
                register_read(SETTINGS_REGISTER, received(final(self).history()), bus_ok(r)),
            ),
            bus_ok(r) ==> r == settings_result::<B::Error>(received(final(self).history())[0]),
            !final(self).standby(),
    {
        let val = match self.read_raw(SETTINGS_REGISTER) {
            Ok(v) => v,
            Err(e) => {
                return Err(Error::Transport(e));
            },
        };
        match Settings::from_byte(val) {
            Ok(s) => Ok(s),
            Err(e) => Err(Error::Encoding(e)),
        }
    }

    /// Writes new [`Settings`] to the device, with continuous measurement on.
    pub fn change_settings(&mut self, set: Settings) -> (r: Result<(), B::Error>)
        ensures
            final(self).history() == old(self).history().push(
                register_write(SETTINGS_REGISTER, settings_byte(set), r is Ok),
            ),
            !final(self).standby(),
    {
        let val = set.to_byte();
        self.write_raw(SETTINGS_REGISTER, val)
    }

    /// Reads the status flags. Reading clears them on the device.
    pub fn get_status(&mut self) -> (r: Result<Status, B::Error>)
        ensures
            received(final(self).history()).len() == 1,
            final(self).history() == old(self).history().push(
                register_read(STATUS_REGISTER, received(final(self).history()), r is Ok),
            ),
            r is Ok ==> r->Ok_0@ == received(final(self).history())[0] & (DOR | OVL | DRDY),
            !final(self).standby(),
    {
        match self.read_raw(STATUS_REGISTER) {
            Ok(v) => Ok(Status::from_bits_truncate(v)),
            Err(e) => Err(e),
        }
    }

    /// Reads the flags of the second control register.
    pub fn get_control2(&mut self) -> (r: Result<Control2, B::Error>)
        ensures
            received(final(self).history()).len() == 1,
            final(self).history() == old(self).history().push(
                register_read(CONTROL2_REGISTER, received(final(self).history()), r is Ok),
            ),
            r is Ok ==> r->Ok_0@ == received(final(self).history())[0] & (SOFT_RST | ROL_PNT
                | INT_ENB),
            !final(self).standby(),
    {
        match self.read_raw(CONTROL2_REGISTER) {
            Ok(v) => Ok(Control2::from_bits_truncate(v)),
            Err(e) => Err(e),
        }
    }

    /// Writes the flags of the second control register.
    pub fn set_control2(&mut self, flags: Control2) -> (r: Result<(), B::Error>)
        ensures
            final(self).history() == old(self).history().push(
                register_write(CONTROL2_REGISTER, flags@, r is Ok),
            ),
            !final(self).standby(),
    {
        self.write_raw(CONTROL2_REGISTER, flags.bits())
    }

    /// Reads the set/reset period register as a raw signed byte.
    pub fn set_reset_period(&mut self) -> (r: Result<i8, B::Error>)
        ensures
            received(final(self).history()).len() == 1,
            final(self).history() == old(self).history().push(
                register_read(SET_RESET_REGISTER, received(final(self).history()), r is Ok),
            ),
            r is Ok ==> r->Ok_0 == signed_byte(received(final(self).history())[0]),
            !final(self).standby(),
    {
        match self.read_raw(SET_RESET_REGISTER) {
            Ok(v) => Ok(crate::registers::i8_from_byte(v)),
            Err(e) => Err(e),
        }
    }

    /// Writes the set/reset period register as a raw signed byte.
    pub fn change_set_reset_period(&mut self, period: i8) -> (r: Result<(), B::Error>)
        ensures
            final(self).history() == old(self).history().push(
                register_write(SET_RESET_REGISTER, unsigned_byte(period), r is Ok),
            ),
            !final(self).standby(),
    {
        let b = crate::registers::byte_from_i8(period);
        self.write_raw(SET_RESET_REGISTER, b)
    }
}

} // verus!
