//! Address discovery over the voice socket: the request packet and the
//! parsing of the server's reply.

use vstd::prelude::*;

use crate::voice::packet::{be16, be32, zeros};

verus! {

/// The 74-byte discovery request: type 1, length 70, the ssrc, then 64
/// reserved bytes and two reserved port bytes, all zero.
pub open spec fn discovery_request(ssrc: u32) -> Seq<u8> {
    be16(1) + be16(70) + be32(ssrc) + zeros(66)
}

/// Builds the discovery request for this session's ssrc.
pub fn build_discovery_request(ssrc: u32) -> (r: Vec<u8>)
    ensures
        r@ == discovery_request(ssrc),
        r@.len() == 74,
{
    let mut out: Vec<u8> = Vec::new();
    out.push(0);
    out.push(1);
    out.push(0);
    out.push(70);
    proof {
        assert((1u16 >> 8) as u8 == 0 && 1u16 as u8 == 1 && (70u16 >> 8) as u8 == 0 && 70u16 as u8
            == 70) by (bit_vector);
        assert(out@ =~= be16(1) + be16(70));
    }
    let ghost base = out@;
    out.push((ssrc >> 24) as u8);
    out.push((ssrc >> 16) as u8);
    out.push((ssrc >> 8) as u8);
    out.push(ssrc as u8);
    proof {
        assert(out@ =~= base + be32(ssrc));
    }
    let ghost base2 = out@;
    let mut i: usize = 0;
    proof {
        assert(out@ =~= base2 + zeros(0));
    }
    while i < 66
        invariant
            0 <= i <= 66,
            out@ == base2 + zeros(i as nat),
            base2 == be16(1) + be16(70) + be32(ssrc),
        decreases 66 - i,
    {
        out.push(0);
        proof {
            assert(out@ =~= base2 + zeros((i + 1) as nat));
        }
        i = i + 1;
    }
    proof {
        assert(out@ =~= discovery_request(ssrc));
        assert(discovery_request(ssrc).len() == 74);
    }
    out
}

/// The 16-bit value at a position, big endian.
pub open spec fn read_be16(b: Seq<u8>, at: int) -> u16 {
    ((b[at] as int) * 256 + (b[at + 1] as int)) as u16
}

/// A reply is recognized when it is at least 74 bytes long and carries
/// type 2.
pub open spec fn reply_ok(b: Seq<u8>) -> bool {
    b.len() >= 74 && read_be16(b, 0) == 2
}

/// The ascii bytes of the advertised address: the bytes from offset 8 up to
/// the first zero byte, at most 64 of them.
pub open spec fn reply_ip_bytes(b: Seq<u8>) -> Seq<u8> {
    let body = b.subrange(8, 72);
    let cut = first_zero(body, 0);
    body.take(cut)
}

/// The index of the first zero byte at or after `from`, or the length.
pub open spec fn first_zero(b: Seq<u8>, from: int) -> int
    recommends
        0 <= from <= b.len(),
    decreases b.len() - from,
{
    if from >= b.len() {
        b.len() as int
    } else if b[from] == 0 {
        from
    } else {
        first_zero(b, from + 1)
    }
}

/// The advertised port: big endian at bytes 72 and 73.
pub open spec fn reply_port(b: Seq<u8>) -> u16 {
    read_be16(b, 72)
}

/// Parses a discovery reply: checks the type and length, reads the
/// zero-terminated ascii address at offset 8 and the port at offset 72.
/// Yields none exactly on unrecognized or non-ascii replies.
pub fn parse_discovery_reply(buf: &Vec<u8>) -> (r: Option<(String, u16)>)
    ensures
        match r {
            Some(p) => reply_ok(buf@) && (forall|i: int|
                0 <= i < reply_ip_bytes(buf@).len() ==> reply_ip_bytes(buf@)[i] < 128) && p.0@
                == reply_ip_bytes(buf@).map_values(|b: u8| b as char) && p.1 == reply_port(buf@),
            None => !reply_ok(buf@) || exists|i: int|
                0 <= i < reply_ip_bytes(buf@).len() && reply_ip_bytes(buf@)[i] >= 128,
        },
{
    if buf.len() < 74 {
        return None;
    }
    let ty: u16 = (buf[0] as u16) * 256 + (buf[1] as u16);
    if ty != 2 {
        return None;
    }
    let ghost body = buf@.subrange(8, 72);
    let mut chars: Vec<char> = Vec::new();
    let mut i: usize = 8;
    proof {
        lemma_first_zero_bound(body, 0);
        assert(body.take(0).map_values(|b: u8| b as char) =~= Seq::<char>::empty());
    }
    while i < 72
        invariant
            8 <= i <= 72,
            buf@.len() >= 74,
            reply_ok(buf@),
            body == buf@.subrange(8, 72),
            first_zero(body, 0) >= i - 8,
            forall|k: int| 0 <= k < i - 8 ==> body[k] != 0,
            forall|k: int| 0 <= k < i - 8 ==> body[k] < 128,
            chars@ == body.take(i - 8).map_values(|b: u8| b as char),
        decreases 72 - i,
    {
        let b = buf[i];
        proof {
            assert(body[i - 8] == buf@[i as int]);
            lemma_first_zero_step(body, i - 8);
        }
        if b == 0 {
            proof {
                assert(first_zero(body, 0) == i - 8) by {
                    lemma_first_zero_found(body, 0, i - 8);
                }
                assert(reply_ip_bytes(buf@) =~= body.take(i - 8));
                assert(chars@ =~= reply_ip_bytes(buf@).map_values(|b: u8| b as char));
                assert forall|k: int|
                    0 <= k < reply_ip_bytes(buf@).len() implies reply_ip_bytes(buf@)[k]
                    < 128 by {
                    assert(reply_ip_bytes(buf@)[k] == body[k]);
                }
            }
            let s = crate::text::chars_to_string(&chars);
            let port: u16 = (buf[72] as u16) * 256 + (buf[73] as u16);
            return Some((s, port));
        }
        if b >= 128 {
            proof {
                assert(first_zero(body, 0) > i - 8);
                lemma_first_zero_bound(body, 0);
                assert(reply_ip_bytes(buf@)[i - 8] == body[i - 8]);
            }
            return None;
        }
        chars.push(b as char);
        proof {
            assert(chars@ =~= body.take(i - 8 + 1).map_values(|b: u8| b as char));
        }
        i = i + 1;
    }
    proof {
        assert(first_zero(body, 0) >= 64);
        lemma_first_zero_bound(body, 0);
        assert(first_zero(body, 0) == 64);
        assert(reply_ip_bytes(buf@) =~= body.take(64));
        assert(body.take(64) =~= body);
        assert(chars@ =~= reply_ip_bytes(buf@).map_values(|b: u8| b as char));
        assert forall|k: int|
            0 <= k < reply_ip_bytes(buf@).len() implies reply_ip_bytes(buf@)[k] < 128 by {
            assert(reply_ip_bytes(buf@)[k] == body[k]);
        }
    }
    let s = crate::text::chars_to_string(&chars);
    let port: u16 = (buf[72] as u16) * 256 + (buf[73] as u16);
    Some((s, port))
}

/// True exactly when the observed sender is the expected server: the reply
/// to a discovery request must come from the address it was sent to, and
/// one from any other peer must be refused.
pub fn same_peer(
    expected_ip: &str,
    expected_port: u16,
    observed_ip: &str,
    observed_port: u16,
) -> (r: bool)
    ensures
        r == (expected_ip@ == observed_ip@ && expected_port == observed_port),
{
    crate::text::str_eq(expected_ip, observed_ip) && expected_port == observed_port
}

/// The first zero lies within the sequence's bounds.
proof fn lemma_first_zero_bound(b: Seq<u8>, from: int)
    requires
        0 <= from <= b.len(),
    ensures
        from <= first_zero(b, from) <= b.len(),
    decreases b.len() - from,
{
    if from < b.len() && b[from] != 0 {
        lemma_first_zero_bound(b, from + 1);
    }
}

/// Stepping over a nonzero byte advances the search.
proof fn lemma_first_zero_step(b: Seq<u8>, at: int)
    requires
        0 <= at < b.len(),
        first_zero(b, 0) >= at,
    ensures
        b[at] != 0 ==> first_zero(b, 0) >= at + 1,
    decreases at,
{
    if b[at] != 0 {
        lemma_first_zero_skip(b, 0, at);
    }
}

/// While all bytes before `at` are implicitly nonzero (the search passed
/// them), the search result equals the search from `at`.
proof fn lemma_first_zero_skip(b: Seq<u8>, from: int, at: int)
    requires
        0 <= from <= at < b.len(),
        first_zero(b, from) >= at,
        b[at] != 0,
    ensures
        first_zero(b, from) >= at + 1,
    decreases at - from,
{
    assert(b[from] != 0) by {
        if b[from] == 0 {
            assert(first_zero(b, from) == from);
        }
    }
    if from == at {
        lemma_first_zero_bound(b, from + 1);
        assert(first_zero(b, from) == first_zero(b, from + 1));
    } else {
        lemma_first_zero_skip(b, from + 1, at);
    }
}

/// A zero at `at`, with the search known to have reached `at`, ends the
/// search exactly there.
proof fn lemma_first_zero_found(b: Seq<u8>, from: int, at: int)
    requires
        0 <= from <= at < b.len(),
        first_zero(b, from) >= at,
        b[at] == 0,
    ensures
        first_zero(b, from) == at,
    decreases at - from,
{
    if from == at {
    } else {
        lemma_first_zero_found(b, from + 1, at);
    }
}

} // verus!
