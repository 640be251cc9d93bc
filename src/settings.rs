//! Settings for the device, and their one-byte wire form.
//!
//! The settings register packs three fields and a mode bit:
//! bits 7..6 hold the oversample ratio, bits 5..4 the full scale, bits 3..2 the
//! output data rate, bit 1 is reserved and bit 0 selects continuous measurement.
use vstd::prelude::*;

verus! {

/// Address of the settings register.
pub const SETTINGS_REGISTER: u8 = 0x09;

/// The bit that selects continuous measurement mode.
pub const CONTINUOUS_MODE: u8 = 0b0000_0001;

/// The Output Data Rate of the device.
///
/// Controls the frequency at which reads can be made.
#[derive(Copy, Clone, Debug, PartialEq, Eq, Structural)]
pub enum OutputDataRate {
    /// 10Hz
    OSR10,
    /// 50Hz
    OSR50,
    /// 100Hz
    OSR100,
    /// 200Hz
    OSR200,
}

/// The Oversample Ratio of the device.
#[derive(Copy, Clone, Debug, PartialEq, Eq, Structural)]
pub enum OverSampleRatio {
    OSR512,
    OSR256,
    OSR128,
    OSR64,
}

/// The measurement range of the device.
#[derive(Copy, Clone, Debug, PartialEq, Eq, Structural)]
pub enum FullScale {
    /// +/- 2 Gauss
    RNG2G,
    /// +/- 8 Gauss
    RNG8G,
}

/// The three configurable fields of the settings register.
#[derive(Copy, Clone, Debug, PartialEq, Eq, Structural)]
pub struct Settings {
    pub odr: OutputDataRate,
    pub osr: OverSampleRatio,
    pub rng: FullScale,
}

/// The settings byte held a full-scale code that names no range.
#[derive(Copy, Clone, Debug, PartialEq, Eq, Structural)]
pub struct InvalidEncoding {
    /// The byte as it was read.
    pub value: u8,
}

pub open spec fn odr_code(odr: OutputDataRate) -> u8 {
    match odr {
        OutputDataRate::OSR10 => 0,
        OutputDataRate::OSR50 => 1,
        OutputDataRate::OSR100 => 2,
        OutputDataRate::OSR200 => 3,
    }
}

pub open spec fn osr_code(osr: OverSampleRatio) -> u8 {
    match osr {
        OverSampleRatio::OSR512 => 0,
        OverSampleRatio::OSR256 => 1,
        OverSampleRatio::OSR128 => 2,
        OverSampleRatio::OSR64 => 3,
    }
}

pub open spec fn rng_code(rng: FullScale) -> u8 {
    match rng {
        FullScale::RNG2G => 0,
        FullScale::RNG8G => 1,
    }
}

pub open spec fn odr_of_code(c: u8) -> OutputDataRate {
    if c == 0 {
        OutputDataRate::OSR10
    } else if c == 1 {
        OutputDataRate::OSR50
    } else if c == 2 {
        OutputDataRate::OSR100
    } else {
        OutputDataRate::OSR200
    }
}

pub open spec fn osr_of_code(c: u8) -> OverSampleRatio {
    if c == 0 {
        OverSampleRatio::OSR512
    } else if c == 1 {
        OverSampleRatio::OSR256
    } else if c == 2 {
        OverSampleRatio::OSR128
    } else {
        OverSampleRatio::OSR64
    }
}

/// The two-bit field of `b` that starts at bit `shift`.
pub open spec fn field(b: u8, shift: u8) -> u8 {
    (b >> shift) & 0b11
}

/// The wire form of `s`: each field shifted into place, with continuous mode on.
pub open spec fn settings_byte(s: Settings) -> u8 {
    (osr_code(s.osr) << 6u8) | (rng_code(s.rng) << 4u8) | (odr_code(s.odr) << 2u8) | CONTINUOUS_MODE
}

/// A byte is a valid settings byte when its full-scale field names a range.
pub open spec fn full_scale_defined(b: u8) -> bool {
    field(b, 4) < 2
}

/// What the settings byte `b` says; the mode bits are not part of `Settings`.
pub open spec fn decode_settings(b: u8) -> Result<Settings, InvalidEncoding> {
    if full_scale_defined(b) {
        Ok(
            Settings {
                odr: odr_of_code(field(b, 2)),
                osr: osr_of_code(field(b, 6)),
                rng: if field(b, 4) == 0 { FullScale::RNG2G } else { FullScale::RNG8G },
            },
        )
    } else {
        Err(InvalidEncoding { value: b })
    }
}

impl OutputDataRate {
    /// The two-bit code of this rate.
    pub fn code(self) -> (r: u8)
        ensures
            r == odr_code(self),
            r < 4,
    {
        match self {
            OutputDataRate::OSR10 => 0,
            OutputDataRate::OSR50 => 1,
            OutputDataRate::OSR100 => 2,
            OutputDataRate::OSR200 => 3,
        }
    }

    /// The rate whose code is `c`.
    pub fn from_code(c: u8) -> (r: Self)
        requires
            c < 4,
        ensures
            r == odr_of_code(c),
            odr_code(r) == c,
    {
        if c == 0 {
            OutputDataRate::OSR10
        } else if c == 1 {
            OutputDataRate::OSR50
        } else if c == 2 {
            OutputDataRate::OSR100
        } else {
            OutputDataRate::OSR200
        }
    }
}

impl OverSampleRatio {
    /// The two-bit code of this ratio.
    pub fn code(self) -> (r: u8)
        ensures
            r == osr_code(self),
            r < 4,
    {
        match self {
            OverSampleRatio::OSR512 => 0,
            OverSampleRatio::OSR256 => 1,
            OverSampleRatio::OSR128 => 2,
            OverSampleRatio::OSR64 => 3,
        }
    }

    /// The ratio whose code is `c`.
    pub fn from_code(c: u8) -> (r: Self)
        requires
            c < 4,
        ensures
            r == osr_of_code(c),
            osr_code(r) == c,
    {
        if c == 0 {
            OverSampleRatio::OSR512
        } else if c == 1 {
            OverSampleRatio::OSR256
        } else if c == 2 {
            OverSampleRatio::OSR128
        } else {
            OverSampleRatio::OSR64
        }
    }
}

impl FullScale {
    /// The two-bit code of this range.
    pub fn code(self) -> (r: u8)
        ensures
            r == rng_code(self),
            r < 2,
    {
        match self {
            FullScale::RNG2G => 0,
            FullScale::RNG8G => 1,
        }
    }

    /// The range whose code is `c`, if `c` names one.
    pub fn from_code(c: u8) -> (r: Option<Self>)
        ensures
            r is Some <==> c < 2,
            r is Some ==> rng_code(r->Some_0) == c,
    {
        if c == 0 {
            Some(FullScale::RNG2G)
        } else if c == 1 {
            Some(FullScale::RNG8G)
        } else {
            None
        }
    }
}

impl Settings {
    /// Encodes these settings as the byte written to the settings register,
    /// with continuous measurement mode on.
    pub fn to_byte(self) -> (r: u8)
        ensures
            r == settings_byte(self),
    {
        let odr = self.odr.code();
        let rng = self.rng.code();
        let osr = self.osr.code();
        (osr << 6u8) | (rng << 4u8) | (odr << 2u8) | CONTINUOUS_MODE
    }

    /// Decodes a settings register byte. A full-scale code of `0b10` or `0b11`
    /// names no range and is refused.
    pub fn from_byte(val: u8) -> (r: Result<Settings, InvalidEncoding>)
        ensures
            r == decode_settings(val),
            r is Err <==> field(val, 4) >= 2,
    {
        let osr_bits = (val >> 6u8) & 0b11;
        let rng_bits = (val >> 4u8) & 0b11;
        let odr_bits = (val >> 2u8) & 0b11;
        assert(osr_bits < 4 && odr_bits < 4) by (bit_vector)
            requires
                osr_bits == (val >> 6u8) & 0b11,
                odr_bits == (val >> 2u8) & 0b11,
        ;
        match FullScale::from_code(rng_bits) {
            Some(rng) => Ok(
                Settings {
                    odr: OutputDataRate::from_code(odr_bits),
                    osr: OverSampleRatio::from_code(osr_bits),
                    rng,
                },
            ),
            None => Err(InvalidEncoding { value: val }),
        }
    }
}

impl Default for OutputDataRate {
    fn default() -> (r: Self)
        ensures
            r == OutputDataRate::OSR10,
    {
        OutputDataRate::OSR10
    }
}

impl Default for OverSampleRatio {
    fn default() -> (r: Self)
        ensures
            r == OverSampleRatio::OSR64,
    {
        OverSampleRatio::OSR64
    }
}

impl Default for FullScale {
    fn default() -> (r: Self)
        ensures
            r == FullScale::RNG2G,
    {
        FullScale::RNG2G
    }
}

impl Default for Settings {
    fn default() -> (r: Self)
        ensures
            r == (Settings {
                odr: OutputDataRate::OSR10,
                osr: OverSampleRatio::OSR64,
                rng: FullScale::RNG2G,
            }),
    {
        Settings { odr: OutputDataRate::OSR10, osr: OverSampleRatio::OSR64, rng: FullScale::RNG2G }
    }
}

impl From<Settings> for u8 {
    fn from(set: Settings) -> (r: u8) {
        set.to_byte()
    }
}

impl vstd::std_specs::convert::FromSpecImpl<Settings> for u8 {
    open spec fn obeys_from_spec() -> bool {
        true
    }

    open spec fn from_spec(set: Settings) -> u8 {
        settings_byte(set)
    }
}

/// Each field of an encoded `Settings` sits in its own two bits: reading a
/// field back gives that field's code alone, the reserved bit is clear and
/// continuous mode is on, whatever the other two fields hold.
pub proof fn lemma_fields_isolated(s: Settings)
    ensures
        field(settings_byte(s), 6) == osr_code(s.osr),
        field(settings_byte(s), 4) == rng_code(s.rng),
        field(settings_byte(s), 2) == odr_code(s.odr),
        settings_byte(s) & 0b10 == 0,
        settings_byte(s) & CONTINUOUS_MODE == CONTINUOUS_MODE,
{
    let (a, b, c) = (osr_code(s.osr), rng_code(s.rng), odr_code(s.odr));
    assert(((((a << 6u8) | (b << 4u8) | (c << 2u8) | 1u8) >> 6u8) & 3u8 == a) && ((((a << 6u8) | (b
        << 4u8) | (c << 2u8) | 1u8) >> 4u8) & 3u8 == b) && ((((a << 6u8) | (b << 4u8) | (c << 2u8)
        | 1u8) >> 2u8) & 3u8 == c) && (((a << 6u8) | (b << 4u8) | (c << 2u8) | 1u8) & 2u8 == 0) && (((a
        << 6u8) | (b << 4u8) | (c << 2u8) | 1u8) & 1u8 == 1)) by (bit_vector)
        requires
            a < 4,
            b < 4,
            c < 4,
    ;
}

/// Decoding an encoded `Settings` gives it back.
pub proof fn lemma_round_trip(s: Settings)
    ensures
        decode_settings(settings_byte(s)) == Ok::<Settings, InvalidEncoding>(s),
{
    lemma_fields_isolated(s);
}

/// Re-encoding what a valid settings byte decodes to keeps its field bits,
/// clears the reserved bit and sets continuous mode.
pub proof fn lemma_reencode(b: u8)
    requires
        full_scale_defined(b),
    ensures
        settings_byte(decode_settings(b)->Ok_0) == (b & 0b1111_1100) | CONTINUOUS_MODE,
{
    let s = decode_settings(b)->Ok_0;
    let (x, y, z) = (field(b, 6), field(b, 4), field(b, 2));
    assert(x < 4 && y < 4 && z < 4) by (bit_vector)
        requires
            x == (b >> 6u8) & 3u8,
            y == (b >> 4u8) & 3u8,
            z == (b >> 2u8) & 3u8,
    ;
    assert(osr_code(s.osr) == x && rng_code(s.rng) == y && odr_code(s.odr) == z);
    assert((x << 6u8) | (y << 4u8) | (z << 2u8) | 1u8 == (b & 0xfcu8) | 1u8) by (bit_vector)
        requires
            x == (b >> 6u8) & 3u8,
            y == (b >> 4u8) & 3u8,
            z == (b >> 2u8) & 3u8,
    ;
}

} // verus!
