//! The blocking write path: send the remaining suffix until the whole
//! payload has gone out, retrying on signal interruption and aborting on any
//! other send failure.
//!
//! The embedder's loop calls blocking `send` with the unsent suffix and feeds
//! each outcome into [`write_step`]; [`VsockSocket::write`] is the whole call
//! judged at once over the outcome sequence. [`write_sim`] is the
//! mathematical account of the loop, and [`sent_stream`] the exact bytes the
//! OS accepted, in order — the ground truth for the stream-reassembly
//! guarantee.

use vstd::prelude::*;

use crate::event::{EngineError, EINTR};
use crate::socket::{State, VsockSocket};

verus! {

/// What a send loop reaches over these outcomes: the whole payload out, an
/// abort on a fatal send failure, or — if the outcomes run dry first — an
/// unfinished loop.
pub enum WriteSim {
    Complete,
    Failed(i32),
    Incomplete,
}

/// The OS never reports more bytes sent than the suffix it was handed. Holds
/// of every outcome the loop actually consumes.
pub open spec fn sends_valid(len: int, sent: int, outs: Seq<Result<usize, i32>>) -> bool
    decreases outs.len(),
{
    if sent >= len || outs.len() == 0 {
        true
    } else {
        match outs[0] {
            Ok(k) => k <= len - sent && sends_valid(len, sent + k, outs.drop_first()),
            Err(e) => if e == EINTR {
                sends_valid(len, sent, outs.drop_first())
            } else {
                true
            },
        }
    }
}

/// Runs the send loop in the mathematics: starting `sent` bytes in, with
/// these outcomes, where does a `len`-byte write end up?
pub open spec fn write_sim(len: int, sent: int, outs: Seq<Result<usize, i32>>) -> WriteSim
    decreases outs.len(),
{
    if sent >= len {
        WriteSim::Complete
    } else if outs.len() == 0 {
        WriteSim::Incomplete
    } else {
        match outs[0] {
            Ok(k) => write_sim(len, sent + k, outs.drop_first()),
            Err(e) => if e == EINTR {
                write_sim(len, sent, outs.drop_first())
            } else {
                WriteSim::Failed(e)
            },
        }
    }
}

/// The bytes the OS accepted, in order: each successful send takes the next
/// `k`-byte slice of the payload; interruptions contribute nothing; a fatal
/// failure cuts the stream off.
pub open spec fn sent_stream(payload: Seq<u8>, sent: int, outs: Seq<Result<usize, i32>>) -> Seq<
    u8,
>
    decreases outs.len(),
{
    if sent >= payload.len() || outs.len() == 0 {
        Seq::empty()
    } else {
        match outs[0] {
            Ok(k) => payload.subrange(sent, sent + k) + sent_stream(
                payload,
                sent + k,
                outs.drop_first(),
            ),
            Err(e) => if e == EINTR {
                sent_stream(payload, sent, outs.drop_first())
            } else {
                Seq::empty()
            },
        }
    }
}

/// A completed send loop put the payload's whole remaining suffix on the
/// wire, in order: the accepted slices are consecutive, so their
/// concatenation is exactly the suffix.
pub proof fn lemma_sent_stream_complete(payload: Seq<u8>, sent: int, outs: Seq<Result<usize, i32>>)
    requires
        0 <= sent <= payload.len(),
        sends_valid(payload.len() as int, sent, outs),
        write_sim(payload.len() as int, sent, outs) is Complete,
    ensures
        sent_stream(payload, sent, outs) == payload.subrange(sent, payload.len() as int),
    decreases outs.len(),
{
    let len = payload.len() as int;
    if sent >= len {
        assert(sent_stream(payload, sent, outs) =~= payload.subrange(sent, len));
    } else {
        match outs[0] {
            Ok(k) => {
                lemma_sent_stream_complete(payload, sent + k, outs.drop_first());
                assert(payload.subrange(sent, sent + k) + payload.subrange(sent + k, len)
                    =~= payload.subrange(sent, len));
            },
            Err(e) => {
                lemma_sent_stream_complete(payload, sent, outs.drop_first());
            },
        }
    }
}

/// One decision of the send loop: a successful send advances the count; a
/// signal interruption counts as zero bytes sent and the loop retries; any
/// other failure aborts the write with [`EngineError::TransportOpFailed`].
pub fn write_step(sent: usize, len: usize, outcome: Result<usize, i32>) -> (r: Result<
    usize,
    EngineError,
>)
    requires
        sent < len,
        outcome matches Ok(k) ==> k <= len - sent,
    ensures
        outcome matches Ok(k) ==> (r matches Ok(s2) && s2 == sent + k),
        outcome matches Err(e) ==> (if e == EINTR {
            r matches Ok(s2) && s2 == sent
        } else {
            r matches Err(k2) && k2 == EngineError::TransportOpFailed(e)
        }),
{
    match outcome {
        Ok(k) => Ok(sent + k),
        Err(e) => if e == EINTR {
            Ok(sent)
        } else {
            Err(EngineError::TransportOpFailed(e))
        },
    }
}

impl VsockSocket {
    /// The blocking write call: `len` bytes of `buf`, judged over the send
    /// outcomes the OS produced. Outside `Initialized` it fails with
    /// [`EngineError::InvalidState`] before any send outcome is looked at.
    /// Otherwise it succeeds exactly when the loop completed — and then the
    /// OS accepted precisely the payload, in order — and aborts with the
    /// first fatal send failure, after which the peer has received some
    /// prefix of the payload, possibly all, possibly none.
    pub fn write(&self, buf: &[u8], len: usize, outcomes: &Vec<Result<usize, i32>>) -> (r: Result<
        (),
        EngineError,
    >)
        requires
            len <= buf@.len(),
            self.state is Initialized ==> sends_valid(len as int, 0, outcomes@),
            self.state is Initialized ==> !(write_sim(len as int, 0, outcomes@) is Incomplete),
        ensures
            self.state !is Initialized ==> (r matches Err(k) && k is InvalidState),
            self.state is Initialized ==> match write_sim(len as int, 0, outcomes@) {
                WriteSim::Complete => r is Ok && sent_stream(buf@.take(len as int), 0, outcomes@)
                    == buf@.take(len as int),
                WriteSim::Failed(e) => r matches Err(k) && k == EngineError::TransportOpFailed(e),
                WriteSim::Incomplete => true,
            },
    {
        if !(self.state == State::Initialized) {
            return Err(EngineError::InvalidState);
        }
        let ghost payload = buf@.take(len as int);
        proof {
            assert(outcomes@.skip(0) =~= outcomes@);
            assert(payload.len() == len as int);
        }
        let n_out = outcomes.len();
        let mut sent: usize = 0;
        let mut i: usize = 0;
        while sent < len
            invariant
                self.state is Initialized,
                sent <= len,
                len <= buf@.len(),
                n_out as int == outcomes@.len(),
                i <= outcomes@.len(),
                payload == buf@.take(len as int),
                sends_valid(len as int, sent as int, outcomes@.skip(i as int)),
                write_sim(len as int, sent as int, outcomes@.skip(i as int)) == write_sim(
                    len as int,
                    0,
                    outcomes@,
                ),
                !(write_sim(len as int, 0, outcomes@) is Incomplete),
            decreases outcomes@.len() - i,
        {
            let ghost suf = outcomes@.skip(i as int);
            proof {
                if i as int == outcomes@.len() {
                    assert(suf =~= Seq::<Result<usize, i32>>::empty());
                    assert(write_sim(len as int, sent as int, suf) is Incomplete);
                }
                assert(suf[0] == outcomes@[i as int]);
                assert(suf.drop_first() =~= outcomes@.skip(i as int + 1));
            }
            let out = outcomes[i];
            i = i + 1;
            match write_step(sent, len, out) {
                Ok(s2) => {
                    sent = s2;
                },
                Err(e) => {
                    return Err(e);
                },
            }
        }
        proof {
            lemma_sent_stream_complete(payload, 0, outcomes@);
            assert(payload.subrange(0, payload.len() as int) =~= payload);
        }
        Ok(())
    }

    /// Writes a whole buffer: [`VsockSocket::write`] with the buffer's own
    /// length.
    pub fn write_buffer(&self, data: &[u8], outcomes: &Vec<Result<usize, i32>>) -> (r: Result<
        (),
        EngineError,
    >)
        requires
            self.state is Initialized ==> sends_valid(data@.len() as int, 0, outcomes@),
            self.state is Initialized ==> !(write_sim(data@.len() as int, 0, outcomes@)
                is Incomplete),
        ensures
            self.state !is Initialized ==> (r matches Err(k) && k is InvalidState),
            self.state is Initialized ==> match write_sim(data@.len() as int, 0, outcomes@) {
                WriteSim::Complete => r is Ok && sent_stream(data@, 0, outcomes@) == data@,
                WriteSim::Failed(e) => r matches Err(k) && k == EngineError::TransportOpFailed(e),
                WriteSim::Incomplete => true,
            },
    {
        let len = data.len();
        proof {
            assert(data@.take(len as int) =~= data@);
        }
        self.write(data, len, outcomes)
    }
}

} // verus!
