//! Stream reassembly: what the writer put in is what the receiver's `data`
//! notifications hand out, byte for byte and in order, however the OS
//! fragments the sends and the reads.

use vstd::prelude::*;

use crate::event::NotifView;
use crate::recv::{classify, recv_trace, RecvClass, RecvOutcome};
use crate::write::{lemma_sent_stream_complete, sends_valid, sent_stream, write_sim};

verus! {

/// The payload bytes of a notification trace: the concatenation of its
/// `data` notifications, in order.
pub open spec fn data_bytes(trace: Seq<NotifView>) -> Seq<u8>
    decreases trace.len(),
{
    if trace.len() == 0 {
        Seq::empty()
    } else {
        (match trace[0] {
            NotifView::Data(b) => b,
            _ => Seq::empty(),
        }) + data_bytes(trace.drop_first())
    }
}

/// The bytes a receive loop consumed off the stream before it stopped: the
/// concatenation of its non-empty reads, in arrival order.
pub open spec fn recv_stream(outs: Seq<RecvOutcome>) -> Seq<u8>
    decreases outs.len(),
{
    if outs.len() == 0 {
        Seq::empty()
    } else {
        match classify(outs[0]) {
            RecvClass::Data(b) => b + recv_stream(outs.drop_first()),
            RecvClass::Transient => recv_stream(outs.drop_first()),
            RecvClass::EndOfStream => Seq::empty(),
            RecvClass::Fatal(_) => Seq::empty(),
        }
    }
}

/// The receive loop surfaces the stream losslessly: the `data`
/// notifications of its trace carry exactly the bytes it consumed.
pub proof fn lemma_data_bytes_trace(outs: Seq<RecvOutcome>)
    ensures
        data_bytes(recv_trace(outs)) == recv_stream(outs),
    decreases outs.len(),
{
    if outs.len() == 0 {
        assert(data_bytes(recv_trace(outs)) =~= recv_stream(outs));
    } else {
        let c = classify(outs[0]);
        if c is EndOfStream {
            assert(recv_trace(outs) =~= seq![NotifView::End]);
            assert(seq![NotifView::End].drop_first() =~= Seq::<NotifView>::empty());
            assert(data_bytes(Seq::<NotifView>::empty()) == Seq::<u8>::empty());
            assert(data_bytes(seq![NotifView::End]) =~= Seq::<u8>::empty());
        } else if c is Fatal {
            assert(recv_trace(outs) =~= seq![NotifView::Error(c->Fatal_0)]);
            assert(seq![NotifView::Error(c->Fatal_0)].drop_first() =~= Seq::<NotifView>::empty());
            assert(data_bytes(Seq::<NotifView>::empty()) == Seq::<u8>::empty());
            assert(data_bytes(seq![NotifView::Error(c->Fatal_0)]) =~= Seq::<u8>::empty());
        } else if c is Transient {
            lemma_data_bytes_trace(outs.drop_first());
            assert(recv_trace(outs) =~= recv_trace(outs.drop_first()));
        } else {
            lemma_data_bytes_trace(outs.drop_first());
            let b = c->Data_0;
            let rest = recv_trace(outs.drop_first());
            assert(recv_trace(outs) =~= seq![NotifView::Data(b)] + rest);
            let whole = seq![NotifView::Data(b)] + rest;
            assert(whole[0] == NotifView::Data(b));
            assert(whole.drop_first() =~= rest);
            assert(data_bytes(whole) == b + data_bytes(rest));
        }
    }
}

/// Stream reassembly, end to end: a write that completed put exactly the
/// payload on the wire, and a receive loop that is handed those bytes — in
/// order, under any fragmentation — emits `data` notifications that
/// reassemble exactly the payload.
pub proof fn lemma_stream_reassembly(
    payload: Seq<u8>,
    sends: Seq<Result<usize, i32>>,
    recvs: Seq<RecvOutcome>,
)
    requires
        sends_valid(payload.len() as int, 0, sends),
        write_sim(payload.len() as int, 0, sends) is Complete,
        recv_stream(recvs) == sent_stream(payload, 0, sends),
    ensures
        data_bytes(recv_trace(recvs)) == payload,
{
    lemma_sent_stream_complete(payload, 0, sends);
    assert(payload.subrange(0, payload.len() as int) =~= payload);
    lemma_data_bytes_trace(recvs);
}

} // verus!
