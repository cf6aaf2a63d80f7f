//! The notification sink: one reference-counted callback target.
//!
//! Background loops on several threads all deliver through one sink, which
//! serializes delivery into the consumer's single execution context. This
//! model captures the serialized result of that delivery: the sequence of
//! notifications the consumer observes, in order, and the single release of
//! the strong reference. The embedder owns the actual cross-thread channel
//! and callback invocation.

use vstd::prelude::*;

use crate::event::{EngineError, NotifView, Notification};

verus! {

/// The mathematical value of an [`Emitter`]: whether its strong reference has
/// been released, and the notifications delivered so far, in delivery order.
#[verifier::ext_equal]
pub struct EmitterView {
    pub released: bool,
    pub log: Seq<NotifView>,
}

/// The views of the notifications of `log`, in order.
pub open spec fn views_of(log: Seq<Notification>) -> Seq<NotifView> {
    log.map_values(|n: Notification| n@)
}

pub broadcast proof fn lemma_views_of_push(log: Seq<Notification>, n: Notification)
    ensures
        #[trigger] views_of(log.push(n)) =~= views_of(log).push(n@),
{
    assert forall|i: int| 0 <= i < log.len() + 1 implies views_of(log.push(n))[i]
        == views_of(log).push(n@)[i] by {
    }
}

/// Holds the one strong reference to the external callback target and records
/// every notification delivered through it.
pub struct Emitter {
    /// Whether the strong reference has been released; once set, dispatch
    /// fails with [`EngineError::SinkReleased`] and the callback is never
    /// invoked again.
    pub released: bool,
    /// The notifications delivered to the consumer, in delivery order.
    pub log: Vec<Notification>,
}

impl View for Emitter {
    type V = EmitterView;

    open spec fn view(&self) -> EmitterView {
        EmitterView { released: self.released, log: views_of(self.log@) }
    }
}

impl Emitter {
    /// A fresh sink: reference held, nothing delivered yet.
    pub fn new() -> (e: Emitter)
        ensures
            !e@.released,
            e@.log == Seq::<NotifView>::empty(),
    {
        Emitter { released: false, log: Vec::new() }
    }

    /// Releases the strong reference. Releasing exactly once is the sink's
    /// obligation; further calls are no-ops.
    pub fn unref(&mut self)
        ensures
            final(self)@.released,
            final(self)@.log == old(self)@.log,
    {
        self.released = true;
    }

    /// Delivers one notification to the consumer.
    ///
    /// After [`Emitter::unref`] the dispatch fails with
    /// [`EngineError::SinkReleased`] and the callback is not invoked.
    pub fn emit(&mut self, n: Notification) -> (r: Result<(), EngineError>)
        ensures
            !old(self)@.released ==> r is Ok && final(self)@.log == old(self)@.log.push(n@)
                && !final(self)@.released,
            old(self)@.released ==> r == Result::<(), EngineError>::Err(EngineError::SinkReleased)
                && *final(self) == *old(self),
    {
        if self.released {
            return Err(EngineError::SinkReleased);
        }
        proof {
            lemma_views_of_push(self.log@, n);
        }
        self.log.push(n);
        Ok(())
    }
}

} // verus!
