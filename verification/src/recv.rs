//! The receive loop: blocking reads, outcome classification, and the
//! data/end/error notifications.
//!
//! The embedder runs the loop on a dedicated thread: it issues one blocking
//! `recv` into a fresh [`crate::socket::BUF_MAX_LEN`]-byte buffer per
//! iteration and feeds each outcome into [`VsockSocket::recv_step`], stopping
//! when the step says the loop is over. [`VsockSocket::hundle_recv`] is the
//! loop itself, run over a whole sequence of outcomes at once: its contract
//! ties the notifications the consumer sees to [`recv_trace`], the
//! mathematical account of the loop.

use vstd::prelude::*;

use crate::event::{EngineError, NotifView, Notification, EAGAIN, EINTR, is_terminal};
use crate::socket::VsockSocket;

verus! {

/// One outcome of a blocking `recv` on the socket.
#[derive(Debug, PartialEq, Eq)]
pub enum RecvOutcome {
    /// The read returned: `size` bytes at the front of `buf` are valid. A
    /// `size` of zero means the peer closed its write side.
    Received { buf: Vec<u8>, size: usize },
    /// The read failed with this `errno`.
    Failed { errno: i32 },
}

/// A received count never exceeds the buffer handed to the OS.
pub open spec fn outcome_wf(o: RecvOutcome) -> bool {
    o matches RecvOutcome::Received { buf, size } ==> size <= buf@.len()
}

/// How the receive loop reads one outcome.
#[verifier::ext_equal]
pub enum RecvClass {
    /// Bytes arrived: surface them and keep looping.
    Data(Seq<u8>),
    /// The peer closed its write side: surface `end` and stop.
    EndOfStream,
    /// Interrupted by a signal, or nothing ready: retry silently.
    Transient,
    /// Any other failure: surface `error` and stop.
    Fatal(i32),
}

/// Classifies one `recv` outcome exactly as the loop reacts to it.
pub open spec fn classify(o: RecvOutcome) -> RecvClass {
    match o {
        RecvOutcome::Received { buf, size } => if size > 0 {
            RecvClass::Data(buf@.subrange(0, size as int))
        } else {
            RecvClass::EndOfStream
        },
        RecvOutcome::Failed { errno } => if errno == EINTR || errno == EAGAIN {
            RecvClass::Transient
        } else {
            RecvClass::Fatal(errno)
        },
    }
}

/// The notifications one outcome adds to the loop's trace.
pub open spec fn step_trace(o: RecvOutcome) -> Seq<NotifView> {
    match classify(o) {
        RecvClass::Data(b) => seq![NotifView::Data(b)],
        RecvClass::EndOfStream => seq![NotifView::End],
        RecvClass::Transient => seq![],
        RecvClass::Fatal(e) => seq![NotifView::Error(e)],
    }
}

/// Whether one outcome ends the loop.
pub open spec fn step_done(o: RecvOutcome) -> bool {
    classify(o) is EndOfStream || classify(o) is Fatal
}

/// The notifications a receive loop emits over these outcomes, in order:
/// one `data` per non-empty read, stopping at — and including — the first
/// terminal outcome, whose `end` or `error` is the last notification.
pub open spec fn recv_trace(outs: Seq<RecvOutcome>) -> Seq<NotifView>
    decreases outs.len(),
{
    if outs.len() == 0 {
        Seq::empty()
    } else if step_done(outs[0]) {
        step_trace(outs[0])
    } else {
        step_trace(outs[0]) + recv_trace(outs.drop_first())
    }
}

/// Whether a loop over these outcomes has reached its terminal outcome.
pub open spec fn recv_terminated(outs: Seq<RecvOutcome>) -> bool
    decreases outs.len(),
{
    if outs.len() == 0 {
        false
    } else if step_done(outs[0]) {
        true
    } else {
        recv_terminated(outs.drop_first())
    }
}

/// Copies the `size`-byte valid prefix out of a read buffer.
fn take_prefix(buf: &Vec<u8>, size: usize) -> (out: Vec<u8>)
    requires
        size <= buf@.len(),
    ensures
        out@ == buf@.subrange(0, size as int),
{
    let mut out: Vec<u8> = Vec::new();
    let mut i: usize = 0;
    while i < size
        invariant
            i <= size,
            size <= buf@.len(),
            out@ == buf@.subrange(0, i as int),
        decreases size - i,
    {
        out.push(buf[i]);
        i = i + 1;
    }
    out
}

impl VsockSocket {
    /// One iteration of the receive loop. Emits what [`classify`] dictates
    /// and says whether the loop is over. Transient outcomes (signal
    /// interruption, nothing ready) are retried with no notification; after
    /// the sink is released nothing is delivered, but the loop still stops
    /// at its terminal outcome.
    pub fn recv_step(&mut self, outcome: &RecvOutcome) -> (done: bool)
        requires
            outcome_wf(*outcome),
        ensures
            final(self).fd == old(self).fd,
            final(self).state == old(self).state,
            final(self).recv_started == old(self).recv_started,
            final(self).emitter@.released == old(self).emitter@.released,
            done == step_done(*outcome),
            old(self).emitter@.released ==> final(self).emitter@.log == old(self).emitter@.log,
            !old(self).emitter@.released ==> final(self).emitter@.log == old(self).emitter@.log
                + step_trace(*outcome),
    {
        let ghost pre_log = self.emitter@.log;
        match outcome {
            RecvOutcome::Received { buf, size } => {
                if *size > 0 {
                    let chunk = take_prefix(buf, *size);
                    let _ = self.emitter.emit(Notification::Data(chunk));
                    proof {
                        assert(pre_log.push(NotifView::Data(buf@.subrange(0, *size as int)))
                            =~= pre_log + step_trace(*outcome));
                    }
                    false
                } else {
                    let _ = self.emitter.emit(Notification::End);
                    proof {
                        assert(pre_log.push(NotifView::End) =~= pre_log + step_trace(*outcome));
                    }
                    true
                }
            },
            RecvOutcome::Failed { errno } => {
                if *errno == EINTR || *errno == EAGAIN {
                    proof {
                        assert(pre_log =~= pre_log + step_trace(*outcome));
                    }
                    false
                } else {
                    let _ = self.emitter.emit(Notification::Error(*errno));
                    proof {
                        assert(pre_log.push(NotifView::Error(*errno)) =~= pre_log + step_trace(
                            *outcome,
                        ));
                    }
                    true
                }
            },
        }
    }

    /// The receive loop itself, over the whole sequence of `recv` outcomes
    /// the OS produced: the consumer observes exactly [`recv_trace`] of
    /// them, and the loop reports whether it stopped at a terminal outcome.
    /// Like the other loop starters, it refuses to run once the sink has
    /// been released.
    pub fn hundle_recv(&mut self, outcomes: &Vec<RecvOutcome>) -> (r: Result<bool, EngineError>)
        requires
            forall|k: int| 0 <= k < outcomes@.len() ==> outcome_wf(#[trigger] outcomes@[k]),
        ensures
            final(self).fd == old(self).fd,
            final(self).state == old(self).state,
            final(self).recv_started == old(self).recv_started,
            final(self).emitter@.released == old(self).emitter@.released,
            old(self).emitter@.released ==> (r matches Err(k) && k is SinkReleased && *final(self)
                == *old(self)),
            !old(self).emitter@.released ==> (r matches Ok(done) && final(self).emitter@.log
                == old(self).emitter@.log + recv_trace(outcomes@) && done == recv_terminated(
                outcomes@,
            )),
    {
        if self.emitter.released {
            return Err(EngineError::SinkReleased);
        }
        let ghost old_log = self.emitter@.log;
        let ghost pre_fd = self.fd;
        let ghost pre_state = self.state;
        let ghost pre_started = self.recv_started;
        let mut i: usize = 0;
        let mut done: bool = false;
        proof {
            assert(outcomes@.skip(0) =~= outcomes@);
        }
        while i < outcomes.len() && !done
            invariant
                i <= outcomes@.len(),
                forall|k: int| 0 <= k < outcomes@.len() ==> outcome_wf(#[trigger] outcomes@[k]),
                self.fd == pre_fd,
                self.state == pre_state,
                self.recv_started == pre_started,
                !self.emitter@.released,
                !done ==> recv_terminated(outcomes@) == recv_terminated(
                    outcomes@.skip(i as int),
                ),
                !done ==> self.emitter@.log + recv_trace(outcomes@.skip(i as int)) == old_log
                    + recv_trace(outcomes@),
                done ==> recv_terminated(outcomes@) && self.emitter@.log == old_log + recv_trace(
                    outcomes@,
                ),
            decreases outcomes@.len() - i,
        {
            let ghost suf = outcomes@.skip(i as int);
            let ghost pre_log = self.emitter@.log;
            proof {
                assert(suf[0] == outcomes@[i as int]);
                assert(suf.drop_first() =~= outcomes@.skip(i as int + 1));
            }
            let step_ended = self.recv_step(&outcomes[i]);
            proof {
                if step_ended {
                    assert(recv_trace(suf) == step_trace(suf[0]));
                    assert(self.emitter@.log =~= old_log + recv_trace(outcomes@));
                } else {
                    assert(recv_trace(suf) == step_trace(suf[0]) + recv_trace(suf.drop_first()));
                    assert(self.emitter@.log + recv_trace(outcomes@.skip(i as int + 1)) =~= old_log
                        + recv_trace(outcomes@));
                }
            }
            done = step_ended;
            i = i + 1;
        }
        proof {
            if !done {
                assert(outcomes@.skip(i as int) =~= Seq::<RecvOutcome>::empty());
                assert(recv_trace(outcomes@.skip(i as int)) =~= Seq::<NotifView>::empty());
                assert(self.emitter@.log =~= old_log + recv_trace(outcomes@));
            }
        }
        Ok(done)
    }
}

/// The receive loop's delivery guarantee: every notification before the last
/// is a `data` notification carrying bytes in arrival order, and when the
/// loop terminates its one terminal `end` or `error` comes last — never
/// twice, never followed by anything.
pub proof fn lemma_recv_trace_terminal(outs: Seq<RecvOutcome>)
    ensures
        forall|i: int| 0 <= i < recv_trace(outs).len() - 1 ==> !is_terminal(
            #[trigger] recv_trace(outs)[i],
        ),
        recv_terminated(outs) ==> recv_trace(outs).len() > 0 && is_terminal(
            recv_trace(outs).last(),
        ),
        !recv_terminated(outs) ==> forall|i: int| 0 <= i < recv_trace(outs).len()
            ==> !is_terminal(#[trigger] recv_trace(outs)[i]),
    decreases outs.len(),
{
    if outs.len() == 0 {
    } else if step_done(outs[0]) {
    } else {
        lemma_recv_trace_terminal(outs.drop_first());
        let head = step_trace(outs[0]);
        let rest = recv_trace(outs.drop_first());
        assert(recv_trace(outs) == head + rest);
        assert(forall|i: int| 0 <= i < head.len() ==> !is_terminal(#[trigger] head[i]));
        assert forall|i: int| 0 <= i < recv_trace(outs).len() - 1 implies !is_terminal(
            recv_trace(outs)[i],
        ) by {
            if i >= head.len() {
                assert(recv_trace(outs)[i] == rest[i - head.len()]);
            }
        }
        if recv_terminated(outs) {
            assert(rest.len() > 0);
            assert(recv_trace(outs).last() == rest.last());
        } else {
            assert forall|i: int| 0 <= i < recv_trace(outs).len() implies !is_terminal(
                recv_trace(outs)[i],
            ) by {
                if i >= head.len() {
                    assert(recv_trace(outs)[i] == rest[i - head.len()]);
                }
            }
        }
    }
}

} // verus!
