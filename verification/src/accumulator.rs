//! Assembly of COBS frames from a byte stream; 0x00 separates frames.
//!
//! Kept apart from the serial read loop so that framing and resynchronisation
//! can be checked without hardware.

use vstd::prelude::*;

verus! {

/// Largest number of bytes the accumulator holds before it forces a resync.
/// Every COBS frame is shorter (see [`crate::MAX_FRAME`]), so an overflow means
/// the stream lost sync, not that a legitimate frame was long.
pub const MAX_ACC: usize = 128;

/// Outcome of feeding one byte to the accumulator.
#[derive(Debug, PartialEq, Eq)]
pub enum Feed {
    /// The byte was stored; the frame is not complete yet.
    NeedMore,
    /// A 0x00 separator arrived and a frame is ready to decode (call `take`).
    FrameReady,
    /// The accumulator overflowed without a separator; it was reset (resync).
    Overflow,
}

/// The accumulator's state after one byte, and what it reports.
pub open spec fn push_spec(acc: Seq<u8>, b: u8) -> (Seq<u8>, Feed) {
    if b == 0 {
        if acc.len() == 0 {
            (acc, Feed::NeedMore)
        } else {
            (acc, Feed::FrameReady)
        }
    } else if acc.len() + 1 > MAX_ACC {
        (Seq::<u8>::empty(), Feed::Overflow)
    } else {
        (acc.push(b), Feed::NeedMore)
    }
}

/// What an accumulator can hold: at most [`MAX_ACC`] bytes, none of them 0x00.
pub open spec fn acc_wf(acc: Seq<u8>) -> bool {
    &&& acc.len() <= MAX_ACC
    &&& forall|i: int| 0 <= i < acc.len() ==> #[trigger] acc[i] != 0u8
}

/// Collector of COBS frames from a byte stream; the separator is 0x00.
pub struct FrameAccumulator {
    acc: Vec<u8>,
}

impl View for FrameAccumulator {
    type V = Seq<u8>;

    /// The bytes gathered since the last separator or reset.
    closed spec fn view(&self) -> Seq<u8> {
        self.acc@
    }
}

impl FrameAccumulator {
    #[verifier::type_invariant]
    spec fn inv(self) -> bool {
        acc_wf(self.acc@)
    }

    /// An empty accumulator.
    pub fn new() -> (s: Self)
        ensures
            s@ == Seq::<u8>::empty(),
    {
        FrameAccumulator { acc: Vec::with_capacity(MAX_ACC) }
    }

    /// Feeds one byte; see [`Feed`]. A separator on an empty accumulator (idle
    /// line, doubled 0x00) is skipped; a separator otherwise marks a frame as
    /// ready and leaves it in place for [`FrameAccumulator::take`]. A data
    /// byte that would make the frame longer than [`MAX_ACC`] resets it.
    pub fn push(&mut self, b: u8) -> (res: Feed)
        ensures
            acc_wf(old(self)@),
            acc_wf(final(self)@),
            (final(self)@, res) == push_spec(old(self)@, b),
    {
        proof {
            use_type_invariant(&*self);
        }
        if b == 0x00 {
            if self.acc.len() == 0 {
                Feed::NeedMore
            } else {
                Feed::FrameReady
            }
        } else if self.acc.len() >= MAX_ACC {
            self.acc = Vec::with_capacity(MAX_ACC);
            Feed::Overflow
        } else {
            let mut acc: Vec<u8> = Vec::new();
            std::mem::swap(&mut acc, &mut self.acc);
            acc.push(b);
            self.acc = acc;
            Feed::NeedMore
        }
    }

    /// Hands out the gathered frame and empties the accumulator (after
    /// `Feed::FrameReady`).
    pub fn take(&mut self) -> (frame: Vec<u8>)
        ensures
            acc_wf(old(self)@),
            frame@ == old(self)@,
            final(self)@ == Seq::<u8>::empty(),
    {
        proof {
            use_type_invariant(&*self);
        }
        let mut frame: Vec<u8> = Vec::with_capacity(MAX_ACC);
        std::mem::swap(&mut frame, &mut self.acc);
        frame
    }

    /// How many bytes are held right now.
    pub fn len(&self) -> (n: usize)
        ensures
            n == self@.len(),
    {
        self.acc.len()
    }

    /// Whether no byte is held.
    pub fn is_empty(&self) -> (b: bool)
        ensures
            b == (self@.len() == 0),
    {
        self.acc.len() == 0
    }
}

impl Default for FrameAccumulator {
    fn default() -> (s: Self)
        ensures
            s@ == Seq::<u8>::empty(),
    {
        Self::new()
    }
}

} // verus!
