//! Turning the bytes read from the board's serial port into telemetry.
//!
//! The host's read loop hands every byte it reads to [`on_byte`] and acts on
//! the [`ReadEvent`] it gets back: nothing, an overflow warning, a sample to
//! publish, or a rejected frame to log.
//!
//! Around the read loop, [`reader_next`] keeps the connection: it stays off
//! the port while the board is being flashed and reopens the port after a
//! flash or a disconnect.

use crate::accumulator::{acc_wf, push_spec, Feed, FrameAccumulator, MAX_ACC};
use crate::frame::{decode_frame, frame_fields, DecodeError};
use crate::{fields_of, Telemetry, TelemetryFields};
use vstd::prelude::*;

verus! {

/// What one byte read from the port amounts to.
#[derive(Debug, Clone, Copy, PartialEq, Eq)]
pub enum ReadEvent {
    /// The byte was stored or skipped; no frame is complete.
    Pending,
    /// The accumulator overflowed and was reset (resync).
    Overflow,
    /// A complete frame decoded to this sample.
    Frame(Telemetry),
    /// A complete frame was rejected by the decoder.
    BadFrame(DecodeError),
}

/// What the serial reader has just seen, outside a read session.
#[derive(Debug, Clone, Copy, PartialEq, Eq)]
pub enum ReaderEvent {
    /// Top of the reader's loop; whether a flash is in progress.
    LoopTop { flashing: bool },
    /// The flash finished and woke the reader.
    Resumed,
    /// A read session returned: with an error (disconnect, port gone), or
    /// without one (a flash began).
    SessionEnded { failed: bool },
}

/// What the serial reader does next.
#[derive(Debug, Clone, Copy, PartialEq, Eq)]
pub enum ReaderAction {
    /// Stay off the port until the flash wakes the reader.
    WaitResume,
    /// Wait this many milliseconds.
    Pause(u64),
    /// Open the port and run a read session.
    OpenAndRead,
    /// Go back to the top of the loop.
    Restart,
}

/// Pause after a flash before the port is opened again, in ms.
pub const RESUME_PAUSE_MS: u64 = 500;

/// Pause after a failed read session before reconnecting, in ms.
pub const RETRY_PAUSE_MS: u64 = 1000;

/// The reconnect policy of the serial reader. During a flash it waits to be
/// woken and then pauses 500 ms before reading; otherwise it opens the port
/// and reads. A session that failed is followed by a 1 s pause and a
/// reconnect; one that ended because a flash began goes straight back to
/// the top of the loop.
pub fn reader_next(ev: ReaderEvent) -> (act: ReaderAction)
    ensures
        ev == (ReaderEvent::LoopTop { flashing: true }) ==> act == ReaderAction::WaitResume,
        ev == (ReaderEvent::LoopTop { flashing: false }) ==> act == ReaderAction::OpenAndRead,
        ev == ReaderEvent::Resumed ==> act == ReaderAction::Pause(RESUME_PAUSE_MS),
        ev == (ReaderEvent::SessionEnded { failed: true }) ==> act == ReaderAction::Pause(
            RETRY_PAUSE_MS,
        ),
        ev == (ReaderEvent::SessionEnded { failed: false }) ==> act == ReaderAction::Restart,
{
    match ev {
        ReaderEvent::LoopTop { flashing } => if flashing {
            ReaderAction::WaitResume
        } else {
            ReaderAction::OpenAndRead
        },
        ReaderEvent::Resumed => ReaderAction::Pause(RESUME_PAUSE_MS),
        ReaderEvent::SessionEnded { failed } => if failed {
            ReaderAction::Pause(RETRY_PAUSE_MS)
        } else {
            ReaderAction::Restart
        },
    }
}

/// A [`ReadEvent`] seen through the fields of the sample it carries.
pub enum StreamStep {
    /// Nothing to report.
    Pending,
    /// The accumulator was reset.
    Overflow,
    /// A frame ended; this is what its bytes decode to.
    Decoded(Result<TelemetryFields, DecodeError>),
}

/// The [`StreamStep`] a [`ReadEvent`] stands for.
pub open spec fn step_of(ev: ReadEvent) -> StreamStep {
    match ev {
        ReadEvent::Pending => StreamStep::Pending,
        ReadEvent::Overflow => StreamStep::Overflow,
        ReadEvent::Frame(t) => StreamStep::Decoded(Ok(fields_of(t))),
        ReadEvent::BadFrame(e) => StreamStep::Decoded(Err(e)),
    }
}

/// One byte through the accumulator: a finished frame is taken out and decoded.
pub open spec fn stream_step(acc: Seq<u8>, b: u8) -> (Seq<u8>, StreamStep) {
    let (next, feed) = push_spec(acc, b);
    match feed {
        Feed::NeedMore => (next, StreamStep::Pending),
        Feed::Overflow => (next, StreamStep::Overflow),
        Feed::FrameReady => (Seq::<u8>::empty(), StreamStep::Decoded(frame_fields(next))),
    }
}

/// A whole run of bytes through the accumulator: the final contents and the
/// step reported for each byte.
pub open spec fn stream_run(acc: Seq<u8>, bytes: Seq<u8>) -> (Seq<u8>, Seq<StreamStep>)
    decreases bytes.len(),
{
    if bytes.len() == 0 {
        (acc, Seq::<StreamStep>::empty())
    } else {
        let (next, step) = stream_step(acc, bytes[0]);
        let (last, steps) = stream_run(next, bytes.drop_first());
        (last, seq![step] + steps)
    }
}

/// `n` quiet steps.
pub open spec fn pending_steps(n: nat) -> Seq<StreamStep> {
    Seq::new(n, |i: int| StreamStep::Pending)
}

/// Bytes that may sit inside a frame: none is the 0x00 separator.
pub open spec fn zero_free(bytes: Seq<u8>) -> bool {
    forall|i: int| 0 <= i < bytes.len() ==> #[trigger] bytes[i] != 0u8
}

/// Feeds one byte read from the port: stores it, and when it ends a frame,
/// takes the frame out of the accumulator and decodes it.
pub fn on_byte(framer: &mut FrameAccumulator, b: u8) -> (ev: ReadEvent)
    ensures
        acc_wf(final(framer)@),
        (final(framer)@, step_of(ev)) == stream_step(old(framer)@, b),
{
    match framer.push(b) {
        Feed::NeedMore => ReadEvent::Pending,
        Feed::Overflow => ReadEvent::Overflow,
        Feed::FrameReady => {
            let frame = framer.take();
            match decode_frame(frame.as_slice()) {
                Ok(t) => ReadEvent::Frame(t),
                Err(e) => ReadEvent::BadFrame(e),
            }
        },
    }
}

/// Feeding `x` then `y` is feeding `x + y`.
pub proof fn lemma_stream_run_append(acc: Seq<u8>, x: Seq<u8>, y: Seq<u8>)
    ensures
        stream_run(acc, x + y) == ({
            let (mid, s1) = stream_run(acc, x);
            let (last, s2) = stream_run(mid, y);
            (last, s1 + s2)
        }),
    decreases x.len(),
{
    if x.len() == 0 {
        assert(x + y == y);
    } else {
        let (next, step) = stream_step(acc, x[0]);
        assert((x + y).drop_first() == x.drop_first() + y);
        lemma_stream_run_append(next, x.drop_first(), y);
        let (mid, s1) = stream_run(next, x.drop_first());
        let (last, s2) = stream_run(mid, y);
        assert(seq![step] + (s1 + s2) == (seq![step] + s1) + s2);
    }
}

/// A single byte through [`stream_run`] is one [`stream_step`].
pub proof fn lemma_stream_run_one(acc: Seq<u8>, b: u8)
    ensures
        stream_run(acc, seq![b]) == (stream_step(acc, b).0, seq![stream_step(acc, b).1]),
{
    let (next, step) = stream_step(acc, b);
    assert(seq![b].drop_first() == Seq::<u8>::empty());
    assert(stream_run(next, Seq::<u8>::empty()) == (next, Seq::<StreamStep>::empty()));
    assert(seq![step] + Seq::<StreamStep>::empty() == seq![step]);
}

/// Data bytes that fit are gathered quietly: nothing is reported and the
/// accumulator ends up holding them after what it held.
pub proof fn lemma_gather(acc: Seq<u8>, f: Seq<u8>)
    requires
        zero_free(f),
        acc.len() + f.len() <= MAX_ACC,
    ensures
        stream_run(acc, f) == (acc + f, pending_steps(f.len())),
    decreases f.len(),
{
    if f.len() == 0 {
        assert(acc + f == acc);
        assert(pending_steps(0) == Seq::<StreamStep>::empty());
    } else {
        assert(f[0] != 0u8);
        let rest = f.drop_first();
        assert(zero_free(rest)) by {
            assert forall|i: int| 0 <= i < rest.len() implies #[trigger] rest[i] != 0u8 by {
                assert(rest[i] == f[i + 1]);
            }
        }
        lemma_gather(acc.push(f[0]), rest);
        assert(acc.push(f[0]) + rest == acc + f);
        assert(seq![StreamStep::Pending] + pending_steps(rest.len()) == pending_steps(f.len()));
    }
}

/// Frame delivery: a non-empty run of data bytes that fits the accumulator,
/// closed by a separator and fed to an empty accumulator, is reported as
/// quiet steps and then, at the separator, as exactly what those bytes
/// decode to; the accumulator is empty again afterwards.
pub proof fn lemma_frame_delivered(f: Seq<u8>)
    requires
        zero_free(f),
        0 < f.len() <= MAX_ACC,
    ensures
        stream_run(Seq::<u8>::empty(), f.push(0u8)) == (
            Seq::<u8>::empty(),
            pending_steps(f.len()).push(StreamStep::Decoded(frame_fields(f))),
        ),
{
    let empty = Seq::<u8>::empty();
    assert(f.push(0u8) == f + seq![0u8]);
    lemma_stream_run_append(empty, f, seq![0u8]);
    lemma_gather(empty, f);
    assert(empty + f == f);
    lemma_stream_run_one(f, 0u8);
    assert(stream_run(f, seq![0u8]) == (empty, seq![StreamStep::Decoded(frame_fields(f))]));
    assert(pending_steps(f.len()) + seq![StreamStep::Decoded(frame_fields(f))] == pending_steps(
        f.len(),
    ).push(StreamStep::Decoded(frame_fields(f))));
}

/// Resync: whatever the accumulator holds, a separator leaves it empty.
pub proof fn lemma_separator_resets(acc: Seq<u8>)
    ensures
        stream_run(acc, seq![0u8]).0 == Seq::<u8>::empty(),
{
    lemma_stream_run_one(acc, 0u8);
}

/// Recovery after any disturbance (leading garbage, a corrupted frame,
/// doubled separators): from any contents, a separator followed by a
/// well-formed run and its separator delivers exactly what that run decodes
/// to, as the last step, and leaves the accumulator empty.
pub proof fn lemma_resync_then_deliver(acc: Seq<u8>, f: Seq<u8>)
    requires
        zero_free(f),
        0 < f.len() <= MAX_ACC,
    ensures
        ({
            let (last, steps) = stream_run(acc, seq![0u8] + f.push(0u8));
            &&& last == Seq::<u8>::empty()
            &&& steps.len() == f.len() + 2
            &&& steps.last() == StreamStep::Decoded(frame_fields(f))
        }),
{
    let empty = Seq::<u8>::empty();
    lemma_stream_run_append(acc, seq![0u8], f.push(0u8));
    lemma_stream_run_one(acc, 0u8);
    let (mid, s1) = stream_run(acc, seq![0u8]);
    assert(mid == empty);
    assert(s1.len() == 1);
    lemma_frame_delivered(f);
    let (last, s2) = stream_run(mid, f.push(0u8));
    assert(s2 == pending_steps(f.len()).push(StreamStep::Decoded(frame_fields(f))));
    assert(s2.len() == f.len() + 1);
    assert((s1 + s2).last() == s2.last());
}

/// Overflow: more than [`MAX_ACC`] data bytes without a separator, fed to an
/// empty accumulator, are quiet for the first [`MAX_ACC`] and report an
/// overflow on the next one, which leaves the accumulator empty.
pub proof fn lemma_overflow(f: Seq<u8>)
    requires
        zero_free(f),
        f.len() == MAX_ACC + 1,
    ensures
        stream_run(Seq::<u8>::empty(), f) == (
            Seq::<u8>::empty(),
            pending_steps(MAX_ACC as nat).push(StreamStep::Overflow),
        ),
{
    let empty = Seq::<u8>::empty();
    let head = f.take(MAX_ACC as int);
    let tail = f.skip(MAX_ACC as int);
    assert(head + tail == f);
    assert(zero_free(head)) by {
        assert forall|i: int| 0 <= i < head.len() implies #[trigger] head[i] != 0u8 by {
            assert(head[i] == f[i]);
        }
    }
    lemma_stream_run_append(empty, head, tail);
    lemma_gather(empty, head);
    assert(empty + head == head);
    assert(tail[0] == f[MAX_ACC as int]);
    assert(tail == seq![f[MAX_ACC as int]]);
    lemma_stream_run_one(head, f[MAX_ACC as int]);
    assert(stream_run(head, tail) == (empty, seq![StreamStep::Overflow]));
    assert(pending_steps(MAX_ACC as nat) + seq![StreamStep::Overflow] == pending_steps(
        MAX_ACC as nat,
    ).push(StreamStep::Overflow));
}

} // verus!
