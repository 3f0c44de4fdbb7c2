//! The three outside codecs a frame goes through: postcard for the payload,
//! CRC-16/IBM-SDLC (X.25) for integrity, COBS for stream framing.
//!
//! Everything in this file is trusted: each item states what the outside
//! crate's source shows, and the rest of the library is proved against it.

use crate::{fields_of, Telemetry, TelemetryFields, MAX_FRAME};
use vstd::prelude::*;

verus! {

#[verifier::external_type_specification]
#[verifier::external_body]
pub struct ExPostcardError(postcard::Error);


// ---------------------------------------------------------------- postcard

/// Unsigned LEB128 as postcard writes it: seven bits per byte, least
/// significant group first, high bit set on every byte but the last.
pub open spec fn varint(v: nat) -> Seq<u8>
    decreases v,
{
    if v < 128 {
        seq![v as u8]
    } else {
        seq![(v % 128 + 128) as u8] + varint(v / 128)
    }
}

/// Zig-zag mapping of a signed 16-bit value: 0, -1, 1, -2, 2, ... become 0, 1, 2, 3, 4, ...
pub open spec fn zigzag(v: i16) -> nat {
    if v >= 0 {
        (2 * v) as nat
    } else {
        (-2 * v - 1) as nat
    }
}

/// The postcard encoding of a sample: its six fields in order, each a varint,
/// the signed ones zig-zag mapped first (no length prefixes, no field names).
pub open spec fn payload_bytes(t: Telemetry) -> Seq<u8> {
    varint(zigzag(t.temp_q4)) + varint(zigzag(t.accel_mg@[0])) + varint(zigzag(t.accel_mg@[1]))
        + varint(zigzag(t.accel_mg@[2])) + varint(t.btn_a as nat) + varint(t.btn_b as nat)
}

/// What `postcard::from_bytes::<(i16, [i16; 3], u16, u16)>` reads from `bytes`:
/// the six fields, or `None` when postcard reports an error.
pub uninterp spec fn postcard_fields(bytes: Seq<u8>) -> Option<TelemetryFields>;

/// Calls `postcard::to_slice` on the sample's fields as the tuple
/// `(i16, [i16; 3], u16, u16)`, which postcard serialises exactly like the
/// struct. Claims: it succeeds exactly when the encoding fits the buffer, the
/// bytes written are `payload_bytes(t)` (zig-zag + varint, as in
/// postcard's `serialize_i16`/`serialize_u16` and `varint_u16`), and
/// `postcard::from_bytes` reads those bytes back as the same fields.
#[verifier::external_body]
pub(crate) fn postcard_to_slice(t: &Telemetry, buf: &mut [u8; MAX_FRAME]) -> (res: Result<
    usize,
    postcard::Error,
>)
    ensures
        res is Ok <==> payload_bytes(*t).len() <= MAX_FRAME,
        res matches Ok(n) ==> {
            &&& n == payload_bytes(*t).len()
            &&& final(buf)@.take(n as int) == payload_bytes(*t)
            &&& postcard_fields(final(buf)@.take(n as int)) == Some(fields_of(*t))
        },
{
    match postcard::to_slice(&(t.temp_q4, t.accel_mg, t.btn_a, t.btn_b), buf) {
        Ok(used) => Ok(used.len()),
        Err(e) => Err(e),
    }
}

/// Calls `postcard::from_bytes::<(i16, [i16; 3], u16, u16)>` and hands the
/// tuple back as a [`Telemetry`]. Claims only that the outcome is
/// `postcard_fields(bytes)`; which inputs postcard accepts is left unsaid.
#[verifier::external_body]
pub(crate) fn postcard_from_bytes(bytes: &[u8]) -> (res: Result<Telemetry, postcard::Error>)
    ensures
        match res {
            Ok(t) => postcard_fields(bytes@) == Some(fields_of(t)),
            Err(_) => postcard_fields(bytes@) is None,
        },
{
    match postcard::from_bytes::<(i16, [i16; 3], u16, u16)>(bytes) {
        Ok((temp_q4, accel_mg, btn_a, btn_b)) => Ok(Telemetry { temp_q4, accel_mg, btn_a, btn_b }),
        Err(e) => Err(e),
    }
}

// ---------------------------------------------------------------- crc

/// CRC-16/IBM-SDLC (also known as X.25) of `data`: reflected, polynomial
/// 0x1021, init 0xFFFF, xorout 0xFFFF.
pub uninterp spec fn crc16_ibm_sdlc(data: Seq<u8>) -> u16;

/// Calls `crc::Crc::<u16>::new(&crc::CRC_16_IBM_SDLC).checksum(data)`.
/// Claims only that the checksum is the named function of the bytes.
#[verifier::external_body]
pub(crate) fn crc16_checksum(data: &[u8]) -> (c: u16)
    ensures
        c == crc16_ibm_sdlc(data@),
{
    crc::Crc::<u16>::new(&crc::CRC_16_IBM_SDLC).checksum(data)
}

// ---------------------------------------------------------------- cobs

/// What `cobs::encode` writes for `source` (without the trailing 0x00).
pub uninterp spec fn cobs_encoded(source: Seq<u8>) -> Seq<u8>;

/// What `cobs::decode` reads from `source` given unlimited room: the decoded
/// message, or `None` when cobs reports a malformed (or empty) frame.
pub uninterp spec fn cobs_decoded(source: Seq<u8>) -> Option<Seq<u8>>;

/// `cobs::max_encoding_length`: the source length plus one byte per started
/// block of 254.
pub open spec fn cobs_max_encoding_length(n: int) -> int {
    n + (n + 253) / 254
}

/// Calls `cobs::encode(source, dest)`, which panics when `dest` is shorter
/// than `cobs::max_encoding_length(source.len())`; that input is left out.
/// Claims: the first `n` bytes of `dest` are the encoding, no more than the
/// documented maximum, none of them 0x00 (the point of COBS), a non-empty
/// source gives a non-empty encoding, and `cobs::decode` gives a non-empty
/// source back.
#[verifier::external_body]
pub(crate) fn cobs_encode(source: &[u8], dest: &mut [u8]) -> (n: usize)
    requires
        cobs_max_encoding_length(source@.len() as int) <= old(dest)@.len(),
    ensures
        final(dest)@.len() == old(dest)@.len(),
        n == cobs_encoded(source@).len(),
        n <= cobs_max_encoding_length(source@.len() as int),
        final(dest)@.take(n as int) == cobs_encoded(source@),
        forall|i: int| 0 <= i < n ==> #[trigger] final(dest)@[i] != 0u8,
        source@.len() > 0 ==> n > 0,
        source@.len() > 0 ==> cobs_decoded(final(dest)@.take(n as int)) == Some(source@),
{
    cobs::encode(source, dest)
}

/// Calls `cobs::decode(source, dest)`, keeping the message length and
/// dropping the error's detail. Claims: it succeeds exactly when the source
/// decodes and the message fits `dest` (cobs reports `TargetBufTooSmall`
/// otherwise), and then the first `n` bytes of `dest` are the message.
#[verifier::external_body]
pub(crate) fn cobs_decode(source: &[u8], dest: &mut [u8]) -> (res: Option<usize>)
    ensures
        final(dest)@.len() == old(dest)@.len(),
        res is Some <==> (cobs_decoded(source@) is Some && cobs_decoded(source@)->0.len()
            <= old(dest)@.len()),
        res matches Some(n) ==> n <= old(dest)@.len() && cobs_decoded(source@) == Some(
            final(dest)@.take(n as int),
        ),
{
    cobs::decode(source, dest).ok()
}

} // verus!
