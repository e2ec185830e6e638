//! Pacing of outbound opus frames: one frame per twenty milliseconds, five
//! leading silence frames, catch-up clamped to now.

use vstd::prelude::*;

verus! {

/// Microseconds per frame.
pub const FRAME_US: u64 = 20000;

/// How many silence frames lead a stream.
pub const SILENCE_FRAME_COUNT: u8 = 5;

/// The distinguished three-byte opus silence frame.
pub fn silence_frame() -> (r: Vec<u8>)
    ensures
        r@ == seq![0xf8u8, 0xffu8, 0xfeu8],
{
    let mut v: Vec<u8> = Vec::new();
    v.push(0xf8);
    v.push(0xff);
    v.push(0xfe);
    proof {
        assert(v@ =~= seq![0xf8u8, 0xffu8, 0xfeu8]);
    }
    v
}

/// The bitrate clamped into the encoder's accepted range.
pub open spec fn clamped_bitrate(bitrate: u32) -> u32 {
    if bitrate < 6000 {
        6000
    } else if bitrate > 510000 {
        510000
    } else {
        bitrate
    }
}

/// Clamps the bitrate into the accepted range of 6000 to 510000 bits per
/// second.
pub fn clamp_bitrate(bitrate: u32) -> (r: u32)
    ensures
        r == clamped_bitrate(bitrate),
{
    if bitrate < 6000 {
        6000
    } else if bitrate > 510000 {
        510000
    } else {
        bitrate
    }
}

/// The exact byte size of each encoded frame at a bitrate: twenty
/// milliseconds of constant-rate bits.
pub fn frame_size_bytes(bitrate: u32) -> (r: u32)
    ensures
        r == clamped_bitrate(bitrate) * 20 / 8000,
{
    let b = clamp_bitrate(bitrate);
    b / 400
}

/// Checks one encoder output against the exact frame size the bitrate
/// dictates; a frame of any other size is an error.
pub fn check_encoded_frame(frame: &Vec<u8>, bitrate: u32) -> (r: Result<
    (),
    crate::voice::EncodeError,
>)
    ensures
        r is Ok <==> frame@.len() == clamped_bitrate(bitrate) * 20 / 8000,
        r matches Err(e) ==> e is FrameSize,
{
    let expected = frame_size_bytes(bitrate);
    if frame.len() == expected as usize {
        Ok(())
    } else {
        Err(crate::voice::EncodeError::FrameSize)
    }
}

/// What the pacer yields at one deadline.
pub enum PacedFrame {
    /// One of the leading silence frames.
    Silence,
    /// The next encoded frame should be emitted.
    Encoded,
}

/// The deadline after one frame: a full frame period later, clamped to now
/// so catch-up after an overrun is bounded.
pub open spec fn next_deadline(deadline: int, now: int) -> int {
    if now > deadline + FRAME_US {
        now
    } else {
        deadline + FRAME_US
    }
}

/// The frame pacer: the next deadline and the silence frames still owed.
pub struct Pacer {
    pub deadline_us: u64,
    pub silence_left: u8,
}

impl Pacer {
    /// A pacer started at time `t`: the first frame is due at once, and
    /// five silence frames lead the stream.
    pub fn new(now_us: u64) -> (r: Pacer)
        ensures
            r.deadline_us == now_us,
            r.silence_left == SILENCE_FRAME_COUNT,
    {
        Pacer { deadline_us: now_us, silence_left: SILENCE_FRAME_COUNT }
    }

    /// Yields one frame at a deadline; must not be called before the
    /// deadline has passed. The deadline advances by one frame period,
    /// clamped to now, so the k-th frame is never due before
    /// `start + (k-1)` periods.
    pub fn tick(&mut self, now_us: u64) -> (r: PacedFrame)
        requires
            now_us >= old(self).deadline_us,
            old(self).deadline_us + FRAME_US <= u64::MAX,
            now_us + FRAME_US <= u64::MAX,
        ensures
            final(self).deadline_us == next_deadline(
                old(self).deadline_us as int,
                now_us as int,
            ),
            final(self).deadline_us >= old(self).deadline_us + FRAME_US,
            old(self).silence_left > 0 ==> (r is Silence && final(self).silence_left == old(
                self,
            ).silence_left - 1),
            old(self).silence_left == 0 ==> (r is Encoded && final(self).silence_left == 0),
    {
        let r = if self.silence_left > 0 {
            self.silence_left = self.silence_left - 1;
            PacedFrame::Silence
        } else {
            PacedFrame::Encoded
        };
        if now_us > self.deadline_us + FRAME_US {
            self.deadline_us = now_us;
        } else {
            self.deadline_us = self.deadline_us + FRAME_US;
        }
        r
    }
}

/// The deadline after a run of ticks, each taken at its own time.
pub open spec fn deadline_after(start: int, times: Seq<int>) -> int
    decreases times.len(),
{
    if times.len() == 0 {
        start
    } else {
        next_deadline(deadline_after(start, times.drop_last()), times.last())
    }
}

/// A pacer started at `start` owes its k-th frame no earlier than
/// `start + (k-1)` frame periods: after any `k` ticks, each taken at or
/// after its deadline, the next deadline is at least `start + k` periods,
/// so the following frame cannot be produced before it.
pub proof fn lemma_pacer_cadence(start: int, times: Seq<int>)
    ensures
        deadline_after(start, times) >= start + times.len() * FRAME_US,
    decreases times.len(),
{
    if times.len() == 0 {
        assert(times.len() == 0 ==> times.len() * FRAME_US == 0) by (nonlinear_arith);
    } else {
        let prefix = times.drop_last();
        lemma_pacer_cadence(start, prefix);
        assert(deadline_after(start, times) >= deadline_after(start, prefix) + FRAME_US);
        assert(prefix.len() * FRAME_US + FRAME_US == times.len() * FRAME_US)
            by (nonlinear_arith)
            requires
                prefix.len() == times.len() - 1,
        ;
    }
}

} // verus!
