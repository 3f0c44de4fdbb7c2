//! Telemetry link between the micro:bit firmware and the host dashboard.
//!
//! Wire format of one frame: `COBS{ version(1) | postcard(Telemetry) | crc16(2, LE) } 0x00`.
//! COBS makes the UART stream self-synchronising (0x00 only ever separates frames),
//! the CRC-16 catches corrupted bytes and the version byte guards schema changes.

pub mod codec;
pub mod frame;
pub mod accumulator;
pub mod serial;
pub mod sensor;
pub mod display;
pub mod probe;

pub use accumulator::{Feed, FrameAccumulator, MAX_ACC};
pub use frame::{check_body, decode_body, decode_frame, encode_frame, wire_frame, DecodeError, EncodeError};
pub use serial::{on_byte, reader_next, ReadEvent, ReaderAction, ReaderEvent};
use vstd::prelude::*;

verus! {

/// Schema version of the frame; bumped on every incompatible change of [`Telemetry`].
pub const PROTOCOL_VERSION: u8 = 1;

/// Largest COBS-encoded frame (version + payload + crc + COBS overhead).
pub const MAX_FRAME: usize = 64;

/// One telemetry sample taken on the board.
#[derive(Debug, Clone, Copy, PartialEq, Eq)]
pub struct Telemetry {
    /// SoC die temperature in steps of 0.25 °C (as the nRF TEMP peripheral reports it).
    pub temp_q4: i16,
    /// Acceleration on X/Y/Z in mg (LSM303AGR, ±2 g normal mode).
    pub accel_mg: [i16; 3],
    /// Press counter of button A (monotonic, wraps on overflow).
    pub btn_a: u16,
    /// Press counter of button B.
    pub btn_b: u16,
}

/// The six numbers a [`Telemetry`] carries, in wire order.
pub type TelemetryFields = (i16, i16, i16, i16, u16, u16);

/// The fields of `t` in wire order: temperature, accel X/Y/Z, button A, button B.
pub open spec fn fields_of(t: Telemetry) -> TelemetryFields {
    (t.temp_q4, t.accel_mg@[0], t.accel_mg@[1], t.accel_mg@[2], t.btn_a, t.btn_b)
}

/// Two samples with the same fields are the same sample.
pub proof fn lemma_fields_of_injective(a: Telemetry, b: Telemetry)
    requires
        fields_of(a) == fields_of(b),
    ensures
        a == b,
{
    assert(a.accel_mg@ =~= b.accel_mg@);
    assert(a.accel_mg == b.accel_mg);
}

} // verus!
