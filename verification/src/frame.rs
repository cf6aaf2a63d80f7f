//! The legacy framing mode: an 8-byte little-endian length prefix in front
//! of each payload.
//!
//! This wire convention is the alternative to the raw-stream mode of the
//! receive and write paths; a handle commits to one of the two for its whole
//! lifetime. Sending writes the prefix and the payload through the writer's
//! send loop; receiving reads exactly eight bytes, then exactly the length
//! they announce, and surfaces that payload alone.

use vstd::prelude::*;

use crate::event::EngineError;
use crate::socket::VsockSocket;
use crate::write::{sends_valid, sent_stream, write_sim, WriteSim};

verus! {

/// 256 to the power `n`: the number of values `n` bytes can hold.
pub open spec fn pow256(n: nat) -> nat
    decreases n,
{
    if n == 0 {
        1
    } else {
        256 * pow256((n - 1) as nat)
    }
}

pub proof fn lemma_pow256_pos(n: nat)
    ensures
        pow256(n) >= 1,
    decreases n,
{
    if n > 0 {
        lemma_pow256_pos((n - 1) as nat);
    }
}

pub proof fn lemma_pow256_le(a: nat, b: nat)
    requires
        a <= b,
    ensures
        pow256(a) <= pow256(b),
    decreases b,
{
    if a < b {
        lemma_pow256_le(a, (b - 1) as nat);
        lemma_pow256_pos((b - 1) as nat);
    }
}

/// The `n` little-endian bytes of `v`: least significant first.
pub open spec fn le_bytes(v: nat, n: nat) -> Seq<u8>
    decreases n,
{
    if n == 0 {
        Seq::empty()
    } else {
        seq![(v % 256) as u8] + le_bytes(v / 256, (n - 1) as nat)
    }
}

/// The value little-endian bytes stand for.
pub open spec fn le_value(b: Seq<u8>) -> nat
    decreases b.len(),
{
    if b.len() == 0 {
        0
    } else {
        b[0] as nat + 256 * le_value(b.drop_first())
    }
}

pub proof fn lemma_le_bytes_len(v: nat, n: nat)
    ensures
        le_bytes(v, n).len() == n,
    decreases n,
{
    if n > 0 {
        lemma_le_bytes_len(v / 256, (n - 1) as nat);
    }
}

/// Reading back the little-endian bytes of a value that fits returns the
/// value: the prefix is a faithful encoding.
pub proof fn lemma_le_round_trip(v: nat, n: nat)
    requires
        v < pow256(n),
    ensures
        le_value(le_bytes(v, n)) == v,
    decreases n,
{
    if n == 0 {
    } else {
        assert(v / 256 < pow256((n - 1) as nat));
        lemma_le_round_trip(v / 256, (n - 1) as nat);
        let b = le_bytes(v, n);
        assert(b == seq![(v % 256) as u8] + le_bytes(v / 256, (n - 1) as nat));
        assert(b.drop_first() =~= le_bytes(v / 256, (n - 1) as nat));
        assert(b[0] == (v % 256) as u8);
    }
}

/// What a framed receive returns on this byte stream: nothing until eight
/// prefix bytes and the payload they announce have all arrived, then
/// exactly that payload.
pub open spec fn decode_spec(stream: Seq<u8>) -> Option<Seq<u8>> {
    if stream.len() < 8 {
        None
    } else {
        let n = le_value(stream.subrange(0, 8));
        if stream.len() - 8 < n {
            None
        } else {
            Some(stream.subrange(8, 8 + n as int))
        }
    }
}

/// Builds the wire form of one framed message: the payload's length as
/// eight little-endian bytes, then the payload.
pub fn encode_frame(payload: &Vec<u8>) -> (out: Vec<u8>)
    ensures
        out@ == le_bytes(payload@.len() as nat, 8) + payload@,
{
    let len = payload.len();
    let ghost orig: nat = len as nat;
    let mut out: Vec<u8> = Vec::new();
    let mut v: u64 = len as u64;
    let mut i: usize = 0;
    while i < 8
        invariant
            i <= 8,
            le_bytes(orig, 8) == out@ + le_bytes(v as nat, (8 - i) as nat),
        decreases 8 - i,
    {
        proof {
            assert(le_bytes(v as nat, (8 - i) as nat) == seq![(v as nat % 256) as u8] + le_bytes(
                v as nat / 256,
                (8 - i - 1) as nat,
            ));
            assert((out@ + seq![(v as nat % 256) as u8]) + le_bytes(v as nat / 256, (8 - i
                - 1) as nat) =~= out@ + (seq![(v as nat % 256) as u8] + le_bytes(
                v as nat / 256,
                (8 - i - 1) as nat,
            )));
        }
        let b: u8 = (v % 256) as u8;
        out.push(b);
        v = v / 256;
        i = i + 1;
    }
    proof {
        assert(le_bytes(v as nat, 0) =~= Seq::<u8>::empty());
        assert(out@ =~= le_bytes(orig, 8));
    }
    let mut j: usize = 0;
    while j < payload.len()
        invariant
            j <= payload@.len(),
            out@ == le_bytes(orig, 8) + payload@.subrange(0, j as int),
        decreases payload@.len() - j,
    {
        out.push(payload[j]);
        j = j + 1;
    }
    proof {
        assert(payload@.subrange(0, payload@.len() as int) =~= payload@);
    }
    out
}

/// Parses one framed message off the front of an accumulated byte stream:
/// `None` until the whole frame is there, otherwise exactly the announced
/// payload.
pub fn decode_frame(stream: &Vec<u8>) -> (r: Option<Vec<u8>>)
    ensures
        match decode_spec(stream@) {
            Some(p) => r matches Some(v) && v@ == p,
            None => r is None,
        },
{
    let total = stream.len();
    if total < 8 {
        return None;
    }
    let mut n: u64 = 0;
    let mut i: usize = 8;
    proof {
        reveal_with_fuel(pow256, 9);
        assert(stream@.subrange(8, 8) =~= Seq::<u8>::empty());
    }
    while i > 0
        invariant
            i <= 8,
            stream@.len() >= 8,
            n as nat == le_value(stream@.subrange(i as int, 8)),
            (n as nat) < pow256((8 - i) as nat),
        decreases i,
    {
        proof {
            reveal_with_fuel(pow256, 9);
            lemma_pow256_le((8 - i) as nat, 7);
            assert(stream@.subrange(i as int - 1, 8).drop_first() =~= stream@.subrange(
                i as int,
                8,
            ));
            assert(le_value(stream@.subrange(i as int - 1, 8)) == stream@.subrange(
                i as int - 1,
                8,
            )[0] as nat + 256 * le_value(stream@.subrange(i as int, 8)));
        }
        i = i - 1;
        n = n * 256 + (stream[i] as u64);
    }
    let rest = total - 8;
    if n > rest as u64 {
        proof {
            assert(stream@.subrange(0, 8) =~= stream@.subrange(0 as int, 8));
        }
        return None;
    }
    let count = n as usize;
    let mut out: Vec<u8> = Vec::new();
    let mut k: usize = 0;
    while k < count
        invariant
            k <= count,
            total as int == stream@.len(),
            8 + count <= total,
            out@ == stream@.subrange(8, 8 + k as int),
        decreases count - k,
    {
        proof {
            assert(stream@.subrange(8, 8 + k as int).push(stream@[8 + k as int]) =~= stream@
                .subrange(8, 8 + k as int + 1));
        }
        out.push(stream[8 + k]);
        k = k + 1;
    }
    Some(out)
}

impl VsockSocket {
    /// Sends one framed message through the writer's send loop: the eight
    /// prefix bytes, then the payload, judged over the send outcomes like
    /// [`VsockSocket::write`]. On completion the wire carries exactly the
    /// frame, in order.
    pub fn send_with_length(&self, payload: &Vec<u8>, outcomes: &Vec<Result<usize, i32>>) -> (r:
        Result<(), EngineError>)
        requires
            self.state is Initialized ==> sends_valid(payload@.len() as int + 8, 0, outcomes@),
            self.state is Initialized ==> !(write_sim(payload@.len() as int + 8, 0, outcomes@)
                is Incomplete),
        ensures
            self.state !is Initialized ==> (r matches Err(k) && k is InvalidState),
            self.state is Initialized ==> match write_sim(payload@.len() as int + 8, 0, outcomes@) {
                WriteSim::Complete => r is Ok && sent_stream(
                    le_bytes(payload@.len() as nat, 8) + payload@,
                    0,
                    outcomes@,
                ) == le_bytes(payload@.len() as nat, 8) + payload@,
                WriteSim::Failed(e) => r matches Err(k) && k == EngineError::TransportOpFailed(e),
                WriteSim::Incomplete => true,
            },
    {
        let frame = encode_frame(payload);
        proof {
            lemma_le_bytes_len(payload@.len() as nat, 8);
        }
        self.write_buffer(frame.as_slice(), outcomes)
    }
}

/// The framing mode's round trip: decoding a stream that starts with the
/// frame of `payload` — whatever else has queued up behind it — returns
/// exactly `payload`.
pub proof fn lemma_frame_round_trip(payload: Seq<u8>, rest: Seq<u8>)
    requires
        payload.len() < pow256(8),
    ensures
        decode_spec(le_bytes(payload.len() as nat, 8) + payload + rest) == Some(payload),
{
    let prefix = le_bytes(payload.len() as nat, 8);
    lemma_le_bytes_len(payload.len() as nat, 8);
    let enc = prefix + payload + rest;
    assert(enc.subrange(0, 8) =~= prefix);
    lemma_le_round_trip(payload.len() as nat, 8);
    assert(le_value(enc.subrange(0, 8)) == payload.len());
    assert(enc.subrange(8, 8 + payload.len() as int) =~= payload);
}

} // verus!
