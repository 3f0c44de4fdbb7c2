//! Encoding and decoding of one telemetry frame.
//!
//! Data layer (before COBS): `version(1) | postcard(Telemetry) | crc16_le(2)`.
//! The CRC covers `version + payload`. The whole block then goes through COBS;
//! the sender appends the 0x00 separator.

use crate::codec::{
    cobs_decode, cobs_decoded, cobs_encode, cobs_encoded, crc16_checksum, crc16_ibm_sdlc,
    payload_bytes, postcard_fields, postcard_from_bytes, postcard_to_slice, varint, zigzag,
};
use crate::{fields_of, lemma_fields_of_injective, Telemetry, TelemetryFields, MAX_FRAME, PROTOCOL_VERSION};
use vstd::prelude::*;
use crate::serial::{lemma_frame_delivered, pending_steps, stream_run, zero_free, StreamStep};
use vstd::slice::{slice_subrange, slice_to_vec};

verus! {

/// Why a frame was rejected.
#[derive(Debug, Clone, Copy, PartialEq, Eq)]
pub enum DecodeError {
    /// COBS unpacking failed (broken frame).
    Cobs,
    /// Frame shorter than the minimum (version + crc).
    TooShort,
    /// The version byte differs from [`PROTOCOL_VERSION`].
    Version(u8),
    /// The CRC does not match (corrupted data).
    Crc,
    /// postcard could not read the payload.
    Payload,
}

/// Why a frame could not be built.
#[derive(Debug, Clone, Copy, PartialEq, Eq)]
pub enum EncodeError {
    /// postcard could not write the payload into the frame buffer.
    Payload,
}

/// The 16-bit value of two bytes in little-endian order.
pub open spec fn le_u16(lo: u8, hi: u8) -> u16 {
    (lo as int + 256 * hi as int) as u16
}

/// The checksummed part of a frame: version byte, then the postcard payload.
pub open spec fn frame_data(t: Telemetry) -> Seq<u8> {
    seq![PROTOCOL_VERSION] + payload_bytes(t)
}

/// The body of a frame before COBS: data, then its CRC-16 in little-endian order.
pub open spec fn frame_body(t: Telemetry) -> Seq<u8> {
    let d = frame_data(t);
    let c = crc16_ibm_sdlc(d);
    d + seq![(c % 256) as u8, (c / 256) as u8]
}

/// The frame as it goes on the wire, without the trailing 0x00 separator.
pub open spec fn frame_bytes(t: Telemetry) -> Seq<u8> {
    cobs_encoded(frame_body(t))
}

/// The checks on a decoded body, given the CRC computed over all of it but
/// its last two bytes: length, version, then the stored CRC.
pub open spec fn body_check(body: Seq<u8>, crc: u16) -> Result<(), DecodeError> {
    if body.len() < 3 {
        Err(DecodeError::TooShort)
    } else if body[0] != PROTOCOL_VERSION {
        Err(DecodeError::Version(body[0]))
    } else if le_u16(body[body.len() - 2], body[body.len() - 1]) != crc {
        Err(DecodeError::Crc)
    } else {
        Ok(())
    }
}

/// What a decoded body yields: the checks of [`body_check`], then the payload.
pub open spec fn body_fields(body: Seq<u8>) -> Result<TelemetryFields, DecodeError> {
    if body.len() < 3 {
        Err(DecodeError::TooShort)
    } else {
        match body_check(body, crc16_ibm_sdlc(body.take(body.len() - 2))) {
            Err(e) => Err(e),
            Ok(_) => match postcard_fields(body.subrange(1, body.len() - 2)) {
                Some(f) => Ok(f),
                None => Err(DecodeError::Payload),
            },
        }
    }
}

/// What a received frame (without its 0x00 separator) yields.
pub open spec fn frame_fields(frame: Seq<u8>) -> Result<TelemetryFields, DecodeError> {
    match cobs_decoded(frame) {
        Some(body) => if body.len() <= MAX_FRAME {
            body_fields(body)
        } else {
            Err(DecodeError::Cobs)
        },
        None => Err(DecodeError::Cobs),
    }
}

/// The outcome of decoding `frame`, as a [`Telemetry`]-valued result.
pub open spec fn decodes_to(frame: Seq<u8>, res: Result<Telemetry, DecodeError>) -> bool {
    match res {
        Ok(t) => frame_fields(frame) == Ok::<TelemetryFields, DecodeError>(fields_of(t)),
        Err(e) => frame_fields(frame) == Err::<TelemetryFields, DecodeError>(e),
    }
}

/// A body passes the checks against `crc`: at least three bytes, the
/// protocol version first, and its last two bytes, read little-endian, equal
/// to all sixteen bits of `crc`.
pub open spec fn body_accepted(body: Seq<u8>, crc: u16) -> bool {
    &&& body.len() >= 3
    &&& body[0] == PROTOCOL_VERSION
    &&& body[body.len() - 2] as int + 256 * body[body.len() - 1] as int == crc as int
}

/// The body checks accept exactly the bodies of at least three bytes that
/// start with the version and whose stored CRC (last two bytes,
/// little-endian) equals the given CRC in all sixteen bits; a stored CRC
/// that differs from it in any bit is rejected as `Crc` once length and
/// version are right.
pub proof fn lemma_check_body_accepts_exactly(body: Seq<u8>, crc: u16)
    ensures
        body_check(body, crc) is Ok <==> body_accepted(body, crc),
        body.len() >= 3 && body[0] == PROTOCOL_VERSION && body[body.len() - 2] as int + 256
            * body[body.len() - 1] as int != crc as int ==> body_check(body, crc) == Err::<
            (),
            DecodeError,
        >(DecodeError::Crc),
{
    if body.len() >= 3 {
        let lo = body[body.len() - 2];
        let hi = body[body.len() - 1];
        assert(0 <= lo as int + 256 * hi as int <= 65535);
        assert(le_u16(lo, hi) as int == lo as int + 256 * hi as int);
    }
}

/// A body that decodes to a sample carries, in its last two bytes
/// (little-endian), exactly the CRC-16/IBM-SDLC of everything before them,
/// and starts with the protocol version.
pub proof fn lemma_accepted_body_carries_its_crc(body: Seq<u8>)
    ensures
        body_fields(body) is Ok ==> body_accepted(body, crc16_ibm_sdlc(body.take(body.len() - 2))),
{
    if body.len() >= 3 {
        lemma_check_body_accepts_exactly(body, crc16_ibm_sdlc(body.take(body.len() - 2)));
    }
}

/// A postcard varint of a 16-bit value takes one to three bytes.
proof fn lemma_varint_len(v: nat)
    requires
        v < 65536,
    ensures
        1 <= varint(v).len() <= 3,
{
    if v >= 128 {
        let w = v / 128;
        assert(varint(v) == seq![(v % 128 + 128) as u8] + varint(w));
        if w >= 128 {
            let x = w / 128;
            assert(x < 128);
            assert(varint(w) == seq![(w % 128 + 128) as u8] + varint(x));
            assert(varint(x) == seq![x as u8]);
        } else {
            assert(varint(w) == seq![w as u8]);
        }
    } else {
        assert(varint(v) == seq![v as u8]);
    }
}

/// The payload of any sample takes at most 18 bytes.
proof fn lemma_payload_len(t: Telemetry)
    ensures
        6 <= payload_bytes(t).len() <= 18,
{
    lemma_varint_len(zigzag(t.temp_q4));
    lemma_varint_len(zigzag(t.accel_mg@[0]));
    lemma_varint_len(zigzag(t.accel_mg@[1]));
    lemma_varint_len(zigzag(t.accel_mg@[2]));
    lemma_varint_len(t.btn_a as nat);
    lemma_varint_len(t.btn_b as nat);
}

/// The two bytes written for a CRC read back as that CRC.
proof fn lemma_le_u16_split(c: u16)
    ensures
        le_u16((c % 256) as u8, (c / 256) as u8) == c,
{
    assert(c == (c % 256) + 256 * (c / 256)) by (nonlinear_arith);
}

/// Encodes `t` into `out` and returns the part of `out` that holds the COBS
/// body (without the 0x00 separator, which the sender appends).
///
/// Always succeeds: the encoding is at most 22 bytes. It never holds 0x00,
/// and its fields are those of `t`, so [`decode_frame`] gives `t` back.
pub fn encode_frame<'a>(t: &Telemetry, out: &'a mut [u8; MAX_FRAME]) -> (res: Result<&'a [u8], EncodeError>)
    ensures
        res is Ok,
        res matches Ok(f) ==> {
            &&& f@ == frame_bytes(*t)
            &&& 0 < f@.len() <= 22
            &&& final(out)@.take(f@.len() as int) == f@
        },
        forall|i: int| 0 <= i < frame_bytes(*t).len() ==> #[trigger] frame_bytes(*t)[i] != 0u8,
        cobs_decoded(frame_bytes(*t)) == Some(frame_body(*t)),
        frame_fields(frame_bytes(*t)) == Ok::<TelemetryFields, DecodeError>(fields_of(*t)),
{
    let mut payload = [0u8; MAX_FRAME];
    proof {
        lemma_payload_len(*t);
    }
    let m = match postcard_to_slice(t, &mut payload) {
        Ok(m) => m,
        Err(_) => return Err(EncodeError::Payload),
    };
    let mut data: Vec<u8> = Vec::with_capacity(MAX_FRAME);
    data.push(PROTOCOL_VERSION);
    let mut i: usize = 0;
    while i < m
        invariant
            m == payload_bytes(*t).len(),
            m <= 18,
            i <= m,
            payload@.take(m as int) == payload_bytes(*t),
            data@ == seq![PROTOCOL_VERSION] + payload@.take(i as int),
        decreases m - i,
    {
        data.push(payload[i]);
        i = i + 1;
        assert(payload@.take(i as int) == payload@.take(i - 1).push(payload@[i - 1]));
    }
    assert(data@ == frame_data(*t));
    let crc = crc16_checksum(data.as_slice());
    let lo = (crc & 0xff) as u8;
    let hi = (crc >> 8) as u8;
    assert(lo == (crc % 256) as u8 && hi == (crc / 256) as u8) by (bit_vector)
        requires
            lo == (crc & 0xff) as u8,
            hi == (crc >> 8) as u8,
    ;
    data.push(lo);
    data.push(hi);
    let ghost body = data@;
    assert(body == frame_body(*t));
    let n = cobs_encode(data.as_slice(), out);
    proof {
        let len = body.len() as int;
        assert(body.take(len - 2) == frame_data(*t));
        assert(body.subrange(1, len - 2) == payload_bytes(*t));
        lemma_le_u16_split(crc);
        assert(body_fields(body) == Ok::<TelemetryFields, DecodeError>(fields_of(*t)));
    }
    let written: &'a [u8; MAX_FRAME] = out;
    Ok(slice_subrange(written.as_slice(), 0, n))
}

/// The frame as the firmware sends it: the COBS body of [`encode_frame`]
/// followed by the 0x00 separator. Fed byte by byte to an empty
/// [`crate::FrameAccumulator`] through [`crate::on_byte`], it is received as
/// quiet steps and then exactly `t`, and the accumulator is empty again.
pub fn wire_frame(t: &Telemetry) -> (res: Result<Vec<u8>, EncodeError>)
    ensures
        res is Ok,
        res matches Ok(w) ==> {
            &&& w@ == frame_bytes(*t).push(0u8)
            &&& stream_run(Seq::<u8>::empty(), w@) == (
                Seq::<u8>::empty(),
                pending_steps((w@.len() - 1) as nat).push(
                    StreamStep::Decoded(Ok::<TelemetryFields, DecodeError>(fields_of(*t))),
                ),
            )
        },
{
    let mut out = [0u8; MAX_FRAME];
    let f = match encode_frame(t, &mut out) {
        Ok(f) => f,
        Err(e) => return Err(e),
    };
    let mut w = slice_to_vec(f);
    w.push(0u8);
    proof {
        let f = frame_bytes(*t);
        assert(zero_free(f)) by {
            assert forall|i: int| 0 <= i < f.len() implies #[trigger] f[i] != 0u8 by {
                assert(f[i] != 0u8);
            }
        }
        lemma_frame_delivered(f);
    }
    Ok(w)
}

/// Checks a decoded frame body against the CRC computed over all of it but
/// its last two bytes: at least 3 bytes, the right version, the stored CRC
/// (little-endian, last two bytes) equal to `crc`.
pub fn check_body(body: &[u8], crc: u16) -> (res: Result<(), DecodeError>)
    ensures
        res == body_check(body@, crc),
        res is Ok <==> body_accepted(body@, crc),
{
    proof {
        lemma_check_body_accepts_exactly(body@, crc);
    }
    let n = body.len();
    if n < 3 {
        return Err(DecodeError::TooShort);
    }
    if body[0] != PROTOCOL_VERSION {
        return Err(DecodeError::Version(body[0]));
    }
    let got: u16 = body[n - 2] as u16 + 256 * (body[n - 1] as u16);
    if got != crc {
        return Err(DecodeError::Crc);
    }
    Ok(())
}

/// Decodes one COBS frame (without its trailing 0x00) into a [`Telemetry`].
///
/// Errors, in the order they are checked: `Cobs` when COBS rejects the frame
/// or the body exceeds [`MAX_FRAME`]; then those of [`decode_body`].
///
/// For the bytes of a frame that [`encode_frame`] built for `t`, the result
/// is exactly `Ok(t)` (the frame round trip).
pub fn decode_frame(frame: &[u8]) -> (res: Result<Telemetry, DecodeError>)
    ensures
        decodes_to(frame@, res),
        forall|t: Telemetry|
            #![trigger frame_bytes(t)]
            frame_bytes(t) == frame@ && frame_fields(frame_bytes(t)) == Ok::<
                TelemetryFields,
                DecodeError,
            >(fields_of(t)) ==> res == Ok::<Telemetry, DecodeError>(t),
{
    let res = decode_frame_steps(frame);
    proof {
        assert forall|t: Telemetry|
            #![trigger frame_bytes(t)]
            frame_bytes(t) == frame@ && frame_fields(frame_bytes(t)) == Ok::<
                TelemetryFields,
                DecodeError,
            >(fields_of(t)) implies res == Ok::<Telemetry, DecodeError>(t) by {
            lemma_frame_round_trip(t, res);
        }
    }
    res
}

/// The decoding steps of [`decode_frame`]: COBS, then [`decode_body`].
fn decode_frame_steps(frame: &[u8]) -> (res: Result<Telemetry, DecodeError>)
    ensures
        decodes_to(frame@, res),
{
    let mut buf = [0u8; MAX_FRAME];
    let n = match cobs_decode(frame, &mut buf) {
        Some(n) => n,
        None => return Err(DecodeError::Cobs),
    };
    decode_body(slice_subrange(buf.as_slice(), 0, n))
}

/// Decodes a frame body already unpacked from COBS: the checks of
/// [`check_body`] against the CRC of all but its last two bytes, then the
/// postcard payload between the version byte and the CRC.
pub fn decode_body(body: &[u8]) -> (res: Result<Telemetry, DecodeError>)
    ensures
        match res {
            Ok(t) => body_fields(body@) == Ok::<TelemetryFields, DecodeError>(fields_of(t)),
            Err(e) => body_fields(body@) == Err::<TelemetryFields, DecodeError>(e),
        },
        res is Ok ==> body_accepted(body@, crc16_ibm_sdlc(body@.take(body@.len() - 2))),
{
    proof {
        lemma_accepted_body_carries_its_crc(body@);
    }
    let n = body.len();
    if n < 3 {
        return Err(DecodeError::TooShort);
    }
    let crc_pos = n - 2;
    let want = crc16_checksum(slice_subrange(body, 0, crc_pos));
    assert(body@.subrange(0, crc_pos as int) == body@.take(n - 2));
    match check_body(body, want) {
        Err(e) => return Err(e),
        Ok(()) => {},
    }
    match postcard_from_bytes(slice_subrange(body, 1, crc_pos)) {
        Ok(t) => Ok(t),
        Err(_) => Err(DecodeError::Payload),
    }
}

/// A frame whose fields are those of `t` decodes to exactly `t`.
proof fn lemma_frame_round_trip(t: Telemetry, res: Result<Telemetry, DecodeError>)
    requires
        frame_fields(frame_bytes(t)) == Ok::<TelemetryFields, DecodeError>(fields_of(t)),
        decodes_to(frame_bytes(t), res),
    ensures
        res == Ok::<Telemetry, DecodeError>(t),
{
    if let Ok(u) = res {
        lemma_fields_of_injective(u, t);
    }
}

} // verus!
