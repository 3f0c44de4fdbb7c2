use shared::{decode_frame, encode_frame, DecodeError, Telemetry, MAX_FRAME};

fn sample() -> Telemetry {
    Telemetry {
        temp_q4: 112,
        accel_mg: [12, -34, 1000],
        btn_a: 5,
        btn_b: 2,
    }
}

#[test]
fn roundtrip() {
    let t = sample();
    let mut out = [0u8; MAX_FRAME];
    let frame = encode_frame(&t, &mut out).unwrap();
    let back = decode_frame(frame).unwrap();
    assert_eq!(t, back);
}

#[test]
fn corrupt_byte_fails() {
    let t = sample();
    let mut out = [0u8; MAX_FRAME];
    let frame = encode_frame(&t, &mut out).unwrap();
    let mut bad = frame.to_vec();
    bad[1] ^= 0xff;

    assert!(decode_frame(&bad).map(|x| x != t).unwrap_or(true));
}

#[test]
fn wrong_version_detected() {
    let t = sample();
    let mut out = [0u8; MAX_FRAME];
    let frame = encode_frame(&t, &mut out).unwrap();

    let mut raw = [0u8; MAX_FRAME];
    let n = cobs::decode(frame, &mut raw).unwrap();
    raw[0] = 99;
    let mut reenc = [0u8; MAX_FRAME];
    let m = cobs::encode(&raw[..n], &mut reenc);

    assert!(matches!(
        decode_frame(&reenc[..m]),
        Err(DecodeError::Version(99)) | Err(DecodeError::Crc)
    ));
}
