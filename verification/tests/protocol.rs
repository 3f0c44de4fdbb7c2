use shared::{decode_frame, encode_frame, DecodeError, Telemetry, MAX_FRAME, PROTOCOL_VERSION};

fn sample() -> Telemetry {
    Telemetry {
        temp_q4: 100,
        accel_mg: [10, -20, 980],
        btn_a: 3,
        btn_b: 4,
    }
}

fn encode_vec(t: &Telemetry) -> Vec<u8> {
    let mut out = [0u8; MAX_FRAME];
    encode_frame(t, &mut out).unwrap().to_vec()
}

#[test]
fn public_roundtrip() {
    let t = sample();
    assert_eq!(decode_frame(&encode_vec(&t)).unwrap(), t);
}

#[test]
fn protocol_version_is_one() {
    assert_eq!(PROTOCOL_VERSION, 1);
}

#[test]
fn wire_format_starts_with_version_after_cobs() {
    let frame = encode_vec(&sample());
    let mut raw = [0u8; MAX_FRAME];
    let n = cobs::decode(&frame, &mut raw).unwrap();
    assert!(n >= 3, "body must hold version + payload + crc16");
    assert_eq!(raw[0], PROTOCOL_VERSION, "first body byte is the version");
}

#[test]
fn truncated_frame_is_rejected() {
    let frame = encode_vec(&sample());
    let truncated = &frame[..frame.len() - 1];
    assert!(decode_frame(truncated).is_err());
}

#[test]
fn extra_trailing_byte_is_rejected() {
    let mut frame = encode_vec(&sample());
    frame.push(0x42);
    assert!(decode_frame(&frame).is_err());
}

#[test]
fn boundary_values_roundtrip() {
    for t in [
        Telemetry {
            temp_q4: 0,
            accel_mg: [0, 0, 0],
            btn_a: 0,
            btn_b: 0,
        },
        Telemetry {
            temp_q4: i16::MAX,
            accel_mg: [i16::MAX, i16::MAX, i16::MAX],
            btn_a: u16::MAX,
            btn_b: u16::MAX,
        },
        Telemetry {
            temp_q4: i16::MIN,
            accel_mg: [i16::MIN, i16::MIN, i16::MIN],
            btn_a: 1,
            btn_b: 1,
        },
    ] {
        let decoded = decode_frame(&encode_vec(&t)).unwrap();
        assert_eq!(decoded, t);
    }
}

#[test]
fn decode_error_variants_are_distinguishable() {
    assert_ne!(DecodeError::Cobs, DecodeError::TooShort);
    assert_ne!(DecodeError::Crc, DecodeError::Payload);
    assert_eq!(DecodeError::Version(1), DecodeError::Version(1));
    assert_ne!(DecodeError::Version(1), DecodeError::Version(2));
}
