//! Framing of raw PCM audio into fixed twenty-millisecond frames.

use vstd::prelude::*;

verus! {

/// Samples per twenty-millisecond frame: 960 per channel at 48 kHz.
pub fn frame_sample_size(stereo: bool) -> (r: usize)
    ensures
        r == if stereo {
            1920int
        } else {
            960int
        },
{
    if stereo {
        1920
    } else {
        960
    }
}

/// Splits a byte stream into frames of a fixed sample count; each sample is
/// two bytes.
pub struct PcmCodec {
    pub frame_sample_size: usize,
}

impl PcmCodec {
    pub fn new(frame_sample_size: usize) -> (r: PcmCodec)
        ensures
            r.frame_sample_size == frame_sample_size,
    {
        PcmCodec { frame_sample_size }
    }

    /// Takes one frame of `2 * frame_sample_size` bytes off the front of the
    /// buffer, when enough bytes are held; the rest stays, in order.
    pub fn decode(&self, src: &mut Vec<u8>) -> (r: Option<Vec<u8>>)
        requires
            self.frame_sample_size * 2 <= usize::MAX,
        ensures
            ({
                let flen = 2 * self.frame_sample_size as int;
                if old(src)@.len() >= flen {
                    r matches Some(f) && f@ == old(src)@.take(flen) && final(src)@ == old(
                        src,
                    )@.skip(flen)
                } else {
                    r is None && final(src)@ == old(src)@
                }
            }),
    {
        let flen = 2 * self.frame_sample_size;
        if src.len() < flen {
            return None;
        }
        let mut frame: Vec<u8> = Vec::new();
        let mut i: usize = 0;
        while i < flen
            invariant
                0 <= i <= flen,
                flen <= src@.len(),
                src@ == old(src)@,
                frame@ == src@.take(i as int),
            decreases flen - i,
        {
            frame.push(src[i]);
            proof {
                assert(frame@ =~= src@.take(i + 1));
            }
            i = i + 1;
        }
        let mut rest: Vec<u8> = Vec::new();
        let mut k: usize = flen;
        let n = src.len();
        while k < n
            invariant
                flen <= k <= n,
                n == src@.len(),
                src@ == old(src)@,
                rest@ == src@.subrange(flen as int, k as int),
            decreases n - k,
        {
            rest.push(src[k]);
            proof {
                assert(rest@ =~= src@.subrange(flen as int, k + 1));
            }
            k = k + 1;
        }
        proof {
            assert(rest@ =~= old(src)@.skip(flen as int));
        }
        *src = rest;
        Some(frame)
    }
}

} // verus!
