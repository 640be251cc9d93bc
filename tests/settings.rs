use qmc5883l::settings::{FullScale, InvalidEncoding, OutputDataRate, OverSampleRatio, Settings};

const ODRS: [OutputDataRate; 4] = [
    OutputDataRate::OSR10,
    OutputDataRate::OSR50,
    OutputDataRate::OSR100,
    OutputDataRate::OSR200,
];
const OSRS: [OverSampleRatio; 4] = [
    OverSampleRatio::OSR512,
    OverSampleRatio::OSR256,
    OverSampleRatio::OSR128,
    OverSampleRatio::OSR64,
];
const RNGS: [FullScale; 2] = [FullScale::RNG2G, FullScale::RNG8G];

#[test]
fn sanity() {
    let set = Settings::default();

    let intermediate_val: u8 = set.into();

    assert_eq!(Settings::from_byte(intermediate_val), Ok(set));
}

#[test]
fn default_settings_byte() {
    let set = Settings::default();
    assert_eq!(set.odr, OutputDataRate::OSR10);
    assert_eq!(set.osr, OverSampleRatio::OSR64);
    assert_eq!(set.rng, FullScale::RNG2G);
    assert_eq!(set.to_byte(), 0b1100_0001);
}

#[test]
fn round_trip_all_combinations() {
    let mut count = 0;
    for odr in ODRS {
        for osr in OSRS {
            for rng in RNGS {
                let set = Settings { odr, osr, rng };
                assert_eq!(Settings::from_byte(set.to_byte()), Ok(set));
                count += 1;
            }
        }
    }
    assert_eq!(count, 32);
}

#[test]
fn fields_isolated() {
    let set = Settings {
        odr: OutputDataRate::OSR50,
        osr: OverSampleRatio::OSR256,
        rng: FullScale::RNG8G,
    };
    let expected = (0b01u8 << 6) | (0b01u8 << 4) | (0b01u8 << 2) | 1;
    assert_eq!(set.to_byte(), expected);
    assert_eq!(set.to_byte(), 0b0101_0101);
    let mut other = set;
    other.odr = OutputDataRate::OSR200;
    assert_eq!(other.to_byte() & !0b1100, set.to_byte() & !0b1100);
    other.osr = OverSampleRatio::OSR512;
    assert_eq!(other.to_byte() & 0b0011_1111, 0b0001_1101);
}

#[test]
fn encode_scenario() {
    let set = Settings {
        odr: OutputDataRate::OSR100,
        osr: OverSampleRatio::OSR128,
        rng: FullScale::RNG2G,
    };
    assert_eq!(u8::from(set), 0b1000_1001);
}

#[test]
fn decode_field_positions() {
    assert_eq!(
        Settings::from_byte(0b1101_1000),
        Ok(Settings {
            odr: OutputDataRate::OSR100,
            osr: OverSampleRatio::OSR64,
            rng: FullScale::RNG8G,
        })
    );
    // the mode bits are not part of the settings
    assert_eq!(Settings::from_byte(0b0000_0011), Settings::from_byte(0));
}

#[test]
fn invalid_full_scale_refused() {
    for high in [0b10u8, 0b11u8] {
        for rest in [0u8, 0b1100_1101, 0b0100_0001] {
            let b = rest | (high << 4);
            assert_eq!(Settings::from_byte(b), Err(InvalidEncoding { value: b }));
        }
    }
    assert_eq!(FullScale::from_code(2), None);
    assert_eq!(FullScale::from_code(1), Some(FullScale::RNG8G));
}

#[test]
fn codes_of_variants() {
    assert_eq!(OutputDataRate::OSR200.code(), 3);
    assert_eq!(OverSampleRatio::from_code(2), OverSampleRatio::OSR128);
    assert_eq!(OutputDataRate::from_code(1), OutputDataRate::OSR50);
    assert_eq!(FullScale::RNG8G.code(), 1);
}

#[test]
fn standby_byte_keeps_settings() {
    for b in [0b0101_1101u8, 0b1100_0001, 0b0001_1111, 0b1000_1001] {
        let standby = b & 0b1111_1100;
        assert_eq!(standby & 1, 0);
        assert_eq!(Settings::from_byte(standby), Settings::from_byte(b));
    }
}
