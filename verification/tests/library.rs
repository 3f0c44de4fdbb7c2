use shared::display::{column_levels, scan_row};
use shared::probe::{flash_next, probe_args, CommandOutcome, FlashAction, ProbeCommand};
use shared::sensor::{accel_mg_from_raw, axis_from_raw};
use shared::{
    check_body, decode_body, decode_frame, encode_frame, on_byte, wire_frame, DecodeError, FrameAccumulator,
    reader_next, ReadEvent, ReaderAction, ReaderEvent, Telemetry, MAX_ACC, MAX_FRAME,
};

fn sample() -> Telemetry {
    Telemetry {
        temp_q4: 100,
        accel_mg: [10, -20, 980],
        btn_a: 3,
        btn_b: 4,
    }
}

/// CRC-16/IBM-SDLC (X.25), bit by bit, as a reference for the test.
fn crc_x25(data: &[u8]) -> u16 {
    let mut crc: u16 = 0xffff;
    for &b in data {
        crc ^= b as u16;
        for _ in 0..8 {
            if crc & 1 == 1 {
                crc = (crc >> 1) ^ 0x8408;
            } else {
                crc >>= 1;
            }
        }
    }
    crc ^ 0xffff
}

fn body_of(t: &Telemetry) -> Vec<u8> {
    let mut out = [0u8; MAX_FRAME];
    let frame = encode_frame(t, &mut out).unwrap();
    let mut raw = [0u8; MAX_FRAME];
    let m = cobs::decode(frame, &mut raw).unwrap();
    raw[..m].to_vec()
}

fn frame_of_body(body: &[u8]) -> Vec<u8> {
    let mut out = [0u8; 2 * MAX_FRAME];
    let n = cobs::encode(body, &mut out);
    out[..n].to_vec()
}

fn with_crc(data: &[u8]) -> Vec<u8> {
    let c = crc_x25(data);
    let mut body = data.to_vec();
    body.push((c & 0xff) as u8);
    body.push((c >> 8) as u8);
    body
}

#[test]
fn reference_crc_matches_check_value() {
    assert_eq!(crc_x25(b"123456789"), 0x906e);
}

#[test]
fn payload_is_zigzag_varint_postcard() {
    let body = body_of(&sample());
    assert_eq!(body.len(), 11);
    assert_eq!(body[0], 1);
    assert_eq!(&body[1..9], &[0xC8, 0x01, 0x14, 0x27, 0xA8, 0x0F, 0x03, 0x04]);
}

#[test]
fn crc_is_x25_over_version_and_payload() {
    let body = body_of(&sample());
    let n = body.len();
    let want = crc_x25(&body[..n - 2]);
    assert_eq!(body[n - 2], (want & 0xff) as u8);
    assert_eq!(body[n - 1], (want >> 8) as u8);
}

#[test]
fn frame_is_cobs_encoded_without_zero_bytes() {
    let t = Telemetry {
        temp_q4: 0,
        accel_mg: [0, 0, 0],
        btn_a: 0,
        btn_b: 0,
    };
    let mut out = [0u8; MAX_FRAME];
    let frame = encode_frame(&t, &mut out).unwrap();
    let body = body_of(&t);
    assert_eq!(&body[1..7], &[0, 0, 0, 0, 0, 0]);
    assert_eq!(frame.len(), body.len() + 1);
    assert!(frame.iter().all(|&b| b != 0));
}

#[test]
fn largest_frame_fits() {
    let t = Telemetry {
        temp_q4: i16::MIN,
        accel_mg: [i16::MIN, i16::MAX, i16::MIN],
        btn_a: u16::MAX,
        btn_b: u16::MAX,
    };
    let mut out = [0u8; MAX_FRAME];
    let frame = encode_frame(&t, &mut out).unwrap();
    assert_eq!(frame.len(), 22);
    assert_eq!(decode_frame(frame), Ok(t));
}

#[test]
fn wire_frame_is_encoded_frame_plus_separator() {
    let t = sample();
    let mut out = [0u8; MAX_FRAME];
    let frame = encode_frame(&t, &mut out).unwrap();
    let n = frame.len();
    let w = wire_frame(&t).unwrap();
    assert_eq!(&w[..n], frame);
    assert_eq!(w.len(), n + 1);
    assert_eq!(w[n], 0);
}

#[test]
fn check_body_reports_each_failure() {
    assert_eq!(check_body(&[1, 2], 0), Err(DecodeError::TooShort));
    assert_eq!(check_body(&[7, 2, 0x34, 0x12], 0x1234), Err(DecodeError::Version(7)));
    assert_eq!(check_body(&[1, 2, 0x34, 0x12], 0x1235), Err(DecodeError::Crc));
    assert_eq!(check_body(&[1, 2, 0x34, 0x12], 0x1234), Ok(()));
}

#[test]
fn decode_frame_reports_each_failure() {
    assert_eq!(decode_frame(&[]), Err(DecodeError::Cobs));
    assert_eq!(decode_frame(&frame_of_body(&[1, 2])), Err(DecodeError::TooShort));
    assert_eq!(
        decode_frame(&frame_of_body(&with_crc(&[2, 0, 0, 0, 0, 0, 0]))),
        Err(DecodeError::Version(2))
    );
    assert_eq!(decode_frame(&frame_of_body(&[1, 0, 0, 0, 0, 0, 0, 0, 0])), Err(DecodeError::Crc));
    assert_eq!(decode_frame(&frame_of_body(&with_crc(&[1, 0xff]))), Err(DecodeError::Payload));
}

#[test]
fn decode_frame_accepts_hand_built_frame() {
    let body = with_crc(&[1, 0xC8, 0x01, 0x14, 0x27, 0xA8, 0x0F, 0x03, 0x04]);
    assert_eq!(decode_frame(&frame_of_body(&body)), Ok(sample()));
}

#[test]
fn body_longer_than_max_frame_is_a_cobs_error() {
    let long = vec![1u8; MAX_FRAME + 10];
    assert_eq!(decode_frame(&frame_of_body(&long)), Err(DecodeError::Cobs));
}

#[test]
fn on_byte_delivers_the_wire_frame() {
    let t = sample();
    let w = wire_frame(&t).unwrap();
    let mut f = FrameAccumulator::new();
    for &b in &w[..w.len() - 1] {
        assert_eq!(on_byte(&mut f, b), ReadEvent::Pending);
    }
    assert_eq!(on_byte(&mut f, 0), ReadEvent::Frame(t));
    assert!(f.is_empty());
}

#[test]
fn on_byte_resyncs_after_garbage_and_reports_bad_frame() {
    let t = sample();
    let mut f = FrameAccumulator::new();
    assert_eq!(on_byte(&mut f, 0), ReadEvent::Pending);
    for b in [0x11, 0x22, 0x33] {
        assert_eq!(on_byte(&mut f, b), ReadEvent::Pending);
    }
    assert!(matches!(on_byte(&mut f, 0), ReadEvent::BadFrame(_)));
    assert!(f.is_empty());
    let mut last = ReadEvent::Pending;
    for b in wire_frame(&t).unwrap() {
        last = on_byte(&mut f, b);
    }
    assert_eq!(last, ReadEvent::Frame(t));
}

#[test]
fn on_byte_reports_overflow_after_max_acc_bytes() {
    let mut f = FrameAccumulator::new();
    for _ in 0..MAX_ACC {
        assert_eq!(on_byte(&mut f, 0x55), ReadEvent::Pending);
    }
    assert_eq!(on_byte(&mut f, 0x55), ReadEvent::Overflow);
    assert_eq!(f.len(), 0);
}

#[test]
fn corrupted_crc_byte_is_reported() {
    let t = sample();
    let body = body_of(&t);
    let mut bad = body.clone();
    let n = bad.len();
    bad[n - 1] ^= 0x01;
    let mut f = FrameAccumulator::new();
    let mut last = ReadEvent::Pending;
    for b in frame_of_body(&bad) {
        last = on_byte(&mut f, b);
    }
    assert_eq!(on_byte(&mut f, 0), ReadEvent::BadFrame(DecodeError::Crc));
    assert_eq!(last, ReadEvent::Pending);
}

#[test]
fn take_hands_out_and_empties() {
    let mut f = FrameAccumulator::default();
    f.push(3);
    f.push(4);
    assert_eq!(f.len(), 2);
    assert_eq!(f.take(), vec![3, 4]);
    assert!(f.is_empty());
}

#[test]
fn accel_conversion_shifts_and_scales() {
    assert_eq!(axis_from_raw(0x40, 0x00), 4);
    assert_eq!(axis_from_raw(0x3f, 0x00), 0);
    assert_eq!(axis_from_raw(0xc0, 0xff), -4);
    assert_eq!(axis_from_raw(0xff, 0xff), -4);
    assert_eq!(axis_from_raw(0xff, 0x7f), 2044);
    assert_eq!(axis_from_raw(0x00, 0x80), -2048);
    assert_eq!(
        accel_mg_from_raw(&[0x00, 0x40, 0x00, 0xc0, 0x00, 0x3e]),
        [(0x4000i16 >> 6) * 4, (-0x4000i16 >> 6) * 4, (0x3e00i16 >> 6) * 4]
    );
    assert_eq!(accel_mg_from_raw(&[0x00, 0x40, 0x00, 0xc0, 0x00, 0x3e]), [1024, -1024, 992]);
}

#[test]
fn column_levels_pull_lit_columns_low() {
    let all_on = [[true; 5]; 5];
    assert_eq!(column_levels(&all_on, 2), [false; 5]);
    let mut frame = [[false; 5]; 5];
    frame[1] = [true, false, true, false, false];
    assert_eq!(column_levels(&frame, 1), [false, true, false, true, true]);
    assert_eq!(column_levels(&frame, 0), [true; 5]);
}

#[test]
fn probe_args_name_chip_and_image() {
    assert_eq!(
        probe_args(ProbeCommand::Download),
        vec![
            "download".to_string(),
            "--chip".to_string(),
            "nRF52833_xxAA".to_string(),
            "target/thumbv7em-none-eabihf/debug/firmware".to_string()
        ]
    );
    assert_eq!(
        probe_args(ProbeCommand::Reset),
        vec!["reset".to_string(), "--chip".to_string(), "nRF52833_xxAA".to_string()]
    );
}

#[test]
fn flash_goes_download_then_reset() {
    let ok = || CommandOutcome::Exited {
        success: true,
        stderr: String::new(),
    };
    assert_eq!(flash_next(ProbeCommand::Download, ok()), FlashAction::Run(ProbeCommand::Reset));
    assert_eq!(
        flash_next(ProbeCommand::Reset, ok()),
        FlashAction::Finish(Ok("flashed + reset OK".to_string()))
    );
}

#[test]
fn flash_errors_name_the_failed_step() {
    assert_eq!(
        flash_next(ProbeCommand::Download, CommandOutcome::SpawnFailed("no such file".to_string())),
        FlashAction::Finish(Err("spawn probe-rs failed: no such file".to_string()))
    );
    assert_eq!(
        flash_next(ProbeCommand::Reset, CommandOutcome::SpawnFailed("denied".to_string())),
        FlashAction::Finish(Err("spawn reset failed: denied".to_string()))
    );
    assert_eq!(
        flash_next(
            ProbeCommand::Download,
            CommandOutcome::Exited {
                success: false,
                stderr: "no probe".to_string()
            }
        ),
        FlashAction::Finish(Err("download failed: no probe".to_string()))
    );
    assert_eq!(
        flash_next(
            ProbeCommand::Reset,
            CommandOutcome::Exited {
                success: false,
                stderr: "lost".to_string()
            }
        ),
        FlashAction::Finish(Err("reset failed: lost".to_string()))
    );
}

#[test]
fn decode_body_reads_an_unpacked_body() {
    let body = body_of(&sample());
    assert_eq!(decode_body(&body), Ok(sample()));
    assert_eq!(decode_body(&body[..2]), Err(DecodeError::TooShort));
    let mut bad = body.clone();
    bad[3] ^= 0x10;
    assert_eq!(decode_body(&bad), Err(DecodeError::Crc));
}

#[test]
fn reader_waits_out_a_flash_and_retries_after_a_failure() {
    assert_eq!(reader_next(ReaderEvent::LoopTop { flashing: true }), ReaderAction::WaitResume);
    assert_eq!(reader_next(ReaderEvent::LoopTop { flashing: false }), ReaderAction::OpenAndRead);
    assert_eq!(reader_next(ReaderEvent::Resumed), ReaderAction::Pause(500));
    assert_eq!(reader_next(ReaderEvent::SessionEnded { failed: true }), ReaderAction::Pause(1000));
    assert_eq!(reader_next(ReaderEvent::SessionEnded { failed: false }), ReaderAction::Restart);
}

#[test]
fn encode_frame_result_is_a_prefix_of_out() {
    let t = sample();
    let mut out = [0xAAu8; MAX_FRAME];
    let n = encode_frame(&t, &mut out).unwrap().to_vec();
    assert!(n.len() <= 22);
    assert_eq!(&out[..n.len()], &n[..]);
}

#[test]
fn scan_row_powers_one_row_and_moves_on() {
    let mut frame = [[false; 5]; 5];
    frame[4] = [false, true, false, false, true];
    let d = scan_row(&frame, 4);
    assert_eq!(d.columns_high, [true, false, true, true, false]);
    assert_eq!(d.rows_high, [false, false, false, false, true]);
    assert_eq!(d.next_row, 0);
    let d = scan_row(&[[true; 5]; 5], 1);
    assert_eq!(d.columns_high, [false; 5]);
    assert_eq!(d.rows_high, [false, true, false, false, false]);
    assert_eq!(d.next_row, 2);
}
