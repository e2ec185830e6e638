//! Assembly and encryption of outbound voice packets.
//!
//! Each packet is a twelve-byte header followed by the sealed opus frame.
//! The header is `0x80 0x78`, a 16-bit sequence, a 32-bit timestamp and the
//! 32-bit ssrc, all big endian. The nonce of packet `n` is exactly the
//! header of packet `n` followed by twelve zero bytes.

use vstd::prelude::*;

use xsalsa20poly1305::aead::Aead;
use xsalsa20poly1305::aead::KeyInit;

verus! {

/// The big-endian bytes of a 16-bit value.
pub open spec fn be16(n: u16) -> Seq<u8> {
    seq![(n >> 8) as u8, n as u8]
}

/// The big-endian bytes of a 32-bit value.
pub open spec fn be32(n: u32) -> Seq<u8> {
    seq![(n >> 24) as u8, (n >> 16) as u8, (n >> 8) as u8, n as u8]
}

/// A run of zero bytes.
pub open spec fn zeros(n: nat) -> Seq<u8> {
    Seq::new(n, |i: int| 0u8)
}

/// The packet header: marker, payload type, sequence, timestamp, ssrc.
pub open spec fn rtp_header(sequence: u16, timestamp: u32, ssrc: u32) -> Seq<u8> {
    seq![0x80u8, 0x78u8] + be16(sequence) + be32(timestamp) + be32(ssrc)
}

/// The sealed box of a message under a 32-byte key and a 24-byte nonce.
pub uninterp spec fn sealed_of(key: Seq<u8>, nonce: Seq<u8>, msg: Seq<u8>) -> Seq<u8>;

/// Relies on xsalsa20poly1305's authenticated encryption: the sealed box is
/// a function of the key, the nonce and the message alone, sixteen bytes
/// longer than the message. Sealing a plain message with no associated data
/// into a growable buffer cannot fail, so a box always comes back.
#[verifier::external_body]
fn seal_box(key: &Vec<u8>, nonce: &Vec<u8>, msg: &Vec<u8>) -> (r: Option<Vec<u8>>)
    requires
        key@.len() == 32,
        nonce@.len() == 24,
    ensures
        r is Some,
        r matches Some(c) ==> c@ == sealed_of(key@, nonce@, msg@) && c@.len() == msg@.len() + 16,
{
    let cipher = xsalsa20poly1305::XSalsa20Poly1305::new_from_slice(key.as_slice()).ok()?;
    let n = xsalsa20poly1305::aead::generic_array::GenericArray::from_slice(nonce.as_slice());
    cipher.encrypt(n, msg.as_slice()).ok()
}

fn push_be16(out: &mut Vec<u8>, n: u16)
    ensures
        final(out)@ == old(out)@ + be16(n),
{
    out.push((n >> 8) as u8);
    out.push(n as u8);
    proof {
        assert(out@ =~= old(out)@ + be16(n));
    }
}

fn push_be32(out: &mut Vec<u8>, n: u32)
    ensures
        final(out)@ == old(out)@ + be32(n),
{
    out.push((n >> 24) as u8);
    out.push((n >> 16) as u8);
    out.push((n >> 8) as u8);
    out.push(n as u8);
    proof {
        assert(out@ =~= old(out)@ + be32(n));
    }
}

/// The send half of one voice transport: the running sequence, timestamp and
/// ssrc stamped into every packet.
pub struct Packetizer {
    pub sequence: u16,
    pub timestamp: u32,
    pub ssrc: u32,
}

impl Packetizer {
    /// A fresh packetizer; counters start at zero.
    pub fn new(ssrc: u32) -> (r: Packetizer)
        ensures
            r.sequence == 0,
            r.timestamp == 0,
            r.ssrc == ssrc,
    {
        Packetizer { sequence: 0, timestamp: 0, ssrc }
    }

    /// The header the next packet will carry.
    pub fn header(&self) -> (r: Vec<u8>)
        ensures
            r@ == rtp_header(self.sequence, self.timestamp, self.ssrc),
    {
        let mut out: Vec<u8> = Vec::new();
        out.push(0x80);
        out.push(0x78);
        proof {
            assert(out@ =~= seq![0x80u8, 0x78u8]);
        }
        push_be16(&mut out, self.sequence);
        push_be32(&mut out, self.timestamp);
        push_be32(&mut out, self.ssrc);
        out
    }

    /// The nonce of the next packet: its header followed by twelve zero
    /// bytes.
    pub fn nonce(&self) -> (r: Vec<u8>)
        ensures
            r@ == rtp_header(self.sequence, self.timestamp, self.ssrc) + zeros(12),
            r@.len() == 24,
    {
        let mut out = self.header();
        let mut i: usize = 0;
        while i < 12
            invariant
                0 <= i <= 12,
                out@ == rtp_header(self.sequence, self.timestamp, self.ssrc) + zeros(i as nat),
            decreases 12 - i,
        {
            out.push(0);
            proof {
                assert(out@ =~= rtp_header(self.sequence, self.timestamp, self.ssrc) + zeros(
                    (i + 1) as nat,
                ));
            }
            i = i + 1;
        }
        proof {
            assert(rtp_header(self.sequence, self.timestamp, self.ssrc).len() == 12);
        }
        out
    }

    /// Seals one opus frame into a packet and advances the counters: the
    /// sequence by one modulo 2^16, the timestamp by 960 modulo 2^32. The
    /// packet is the header followed by the sealed frame — twelve header
    /// bytes, the frame, and the sixteen-byte tag — and the nonce used is
    /// exactly the header followed by twelve zero bytes.
    pub fn next_packet(&mut self, key: &Vec<u8>, frame: &Vec<u8>) -> (r: Option<Vec<u8>>)
        requires
            key@.len() == 32,
            frame@.len() + 28 <= usize::MAX,
        ensures
            final(self).ssrc == old(self).ssrc,
            final(self).sequence == ((old(self).sequence as int + 1) % 0x10000) as u16,
            final(self).timestamp == ((old(self).timestamp as int + 960) % 0x100000000) as u32,
            r matches Some(p) && p@ == rtp_header(
                old(self).sequence,
                old(self).timestamp,
                old(self).ssrc,
            ) + sealed_of(
                key@,
                rtp_header(old(self).sequence, old(self).timestamp, old(self).ssrc) + zeros(12),
                frame@,
            ) && p@.len() == 12 + frame@.len() + 16,
    {
        let mut packet = self.header();
        let nonce = self.nonce();
        let sealed = seal_box(key, &nonce, frame);
        let r = match sealed {
            Some(mut c) => {
                let mut i: usize = 0;
                let n = c.len();
                while i < n
                    invariant
                        0 <= i <= n,
                        n == c@.len(),
                        packet@ == rtp_header(self.sequence, self.timestamp, self.ssrc)
                            + c@.take(i as int),
                    decreases n - i,
                {
                    packet.push(c[i]);
                    proof {
                        assert(packet@ =~= rtp_header(self.sequence, self.timestamp, self.ssrc)
                            + c@.take(i + 1));
                    }
                    i = i + 1;
                }
                proof {
                    assert(c@.take(i as int) =~= c@);
                }
                Some(packet)
            },
            None => None,
        };
        proof {
            assert((old(self).sequence as int + 1) % 0x10000 == if old(self).sequence
                == 0xffffu16 {
                0int
            } else {
                old(self).sequence as int + 1
            });
            assert((old(self).timestamp as int + 960) % 0x100000000 == if old(self).timestamp
                >= 0xfffffc40u32 {
                old(self).timestamp as int + 960 - 0x100000000
            } else {
                old(self).timestamp as int + 960
            });
        }
        self.sequence = if self.sequence == 0xffff {
            0
        } else {
            self.sequence + 1
        };
        self.timestamp = if self.timestamp >= 0xfffffc40 {
            // wraps: 2^32 - 960 = 0xfffffc40
            (self.timestamp - 0xfffffc40)
        } else {
            self.timestamp + 960
        };
        r
    }
}

/// The counters after a run of sends: the sequence advances by one per
/// frame modulo 2^16, the timestamp by 960 per frame modulo 2^32.
pub open spec fn counters_after(seq0: u16, ts0: u32, n: nat) -> (u16, u32) {
    ((((seq0 as int) + n) % 0x10000) as u16, (((ts0 as int) + 960 * n) % 0x100000000) as u32)
}

/// Advancing the counters one send at a time reaches the closed form: after
/// `n` sends the sequence is `(seq0 + n) mod 2^16` and the timestamp is
/// `(ts0 + 960 n) mod 2^32`.
pub proof fn lemma_counters_closed_form(seq0: u16, ts0: u32, n: nat)
    ensures
        n > 0 ==> counters_after(seq0, ts0, n) == {
            let prev = counters_after(seq0, ts0, (n - 1) as nat);
            (
                (((prev.0 as int) + 1) % 0x10000) as u16,
                (((prev.1 as int) + 960) % 0x100000000) as u32,
            )
        },
    decreases n,
{
    if n > 0 {
        let prev = counters_after(seq0, ts0, (n - 1) as nat);
        assert(prev.0 as int == ((seq0 as int) + (n - 1)) % 0x10000);
        assert(prev.1 as int == ((ts0 as int) + 960 * (n - 1)) % 0x100000000);
        assert((((seq0 as int) + (n - 1)) % 0x10000 + 1) % 0x10000 == ((seq0 as int) + n)
            % 0x10000) by {
            vstd::arithmetic::div_mod::lemma_add_mod_noop(
                (seq0 as int) + (n - 1),
                1int,
                0x10000,
            );
            vstd::arithmetic::div_mod::lemma_mod_twice(1int, 0x10000);
            vstd::arithmetic::div_mod::lemma_mod_twice((seq0 as int) + (n - 1), 0x10000);
            vstd::arithmetic::div_mod::lemma_add_mod_noop_right(
                ((seq0 as int) + (n - 1)) % 0x10000 + 1,
                0,
                0x10000,
            );
        }
        assert((((ts0 as int) + 960 * (n - 1)) % 0x100000000 + 960) % 0x100000000 == ((ts0 as int)
            + 960 * n) % 0x100000000) by {
            assert(960 * n == 960 * (n - 1) + 960) by (nonlinear_arith);
            vstd::arithmetic::div_mod::lemma_add_mod_noop(
                (ts0 as int) + 960 * (n - 1),
                960int,
                0x100000000,
            );
            vstd::arithmetic::div_mod::lemma_mod_twice(960int, 0x100000000);
            vstd::arithmetic::div_mod::lemma_mod_twice(
                (ts0 as int) + 960 * (n - 1),
                0x100000000,
            );
            vstd::arithmetic::div_mod::lemma_add_mod_noop_right(
                ((ts0 as int) + 960 * (n - 1)) % 0x100000000 + 960,
                0,
                0x100000000,
            );
        }
    }
}

} // verus!
