use droner::sensor_values::{i16_from_be_bytes, sample_rate_hz, RawSensorValues};

#[test]
fn big_endian_decoding_matches_std() {
    for high in 0..=255u8 {
        for low in 0..=255u8 {
            assert_eq!(i16_from_be_bytes(high, low), i16::from_be_bytes([high, low]));
        }
    }
}

#[test]
fn big_endian_edges() {
    assert_eq!(i16_from_be_bytes(0x00, 0x00), 0);
    assert_eq!(i16_from_be_bytes(0x7F, 0xFF), i16::MAX);
    assert_eq!(i16_from_be_bytes(0x80, 0x00), i16::MIN);
    assert_eq!(i16_from_be_bytes(0xFF, 0xFF), -1);
    assert_eq!(i16_from_be_bytes(0x40, 0x00), 16384);
}

#[test]
fn measurement_block_decoding() {
    let buffer: [u8; 14] = [
        0x40, 0x00, // ax = 16384 (1 g)
        0xFF, 0xFE, // ay = -2
        0x00, 0x83, // az = 131
        0x12, 0x34, // temperature, not read
        0x00, 0x83, // gx = 131 (1 deg/s)
        0x80, 0x00, // gy = -32768
        0x7F, 0xFF, // gz = 32767
    ];
    let v = RawSensorValues::new(&buffer);
    assert_eq!(
        v,
        RawSensorValues { ax: 16384, ay: -2, az: 131, gx: 131, gy: -32768, gz: 32767 }
    );
}

#[test]
fn sample_rate() {
    assert_eq!(sample_rate_hz(9), 100);
    assert_eq!(sample_rate_hz(0), 1000);
    assert_eq!(sample_rate_hz(255), 3);
}
