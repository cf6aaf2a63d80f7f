//! The client-side connector: bounded retries with exponential backoff.
//!
//! The embedder spawns a thread that performs the blocking OS `connect`
//! calls and the sleeps; [`connect_step`] decides what to do after each
//! attempt, and [`VsockSocket::connect_run`] is the whole retry sequence
//! judged at once: one `connect` notification on the first success, or —
//! after every attempt failed and the full backoff was slept — exactly one
//! `error` notification carrying the last failure, and never both.

use vstd::prelude::*;

use crate::event::{EngineError, NotifView, Notification};
use crate::socket::VsockSocket;

verus! {

/// How many times an outbound connection is attempted before giving up.
pub const MAX_CONNECTION_ATTEMPTS: usize = 5;

/// Two to the power `n`.
pub open spec fn pow2(n: nat) -> nat
    decreases n,
{
    if n == 0 {
        1
    } else {
        2 * pow2((n - 1) as nat)
    }
}

/// The delay before retrying after failed attempt number `attempt`
/// (counting from zero): `2^attempt` seconds, uncapped.
pub fn backoff_secs(attempt: usize) -> (d: u64)
    requires
        attempt < MAX_CONNECTION_ATTEMPTS,
    ensures
        d as nat == pow2(attempt as nat),
{
    proof {
        reveal_with_fuel(pow2, 6);
    }
    if attempt == 0 {
        1
    } else if attempt == 1 {
        2
    } else if attempt == 2 {
        4
    } else if attempt == 3 {
        8
    } else {
        16
    }
}

/// What the connector does after attempt number `attempt` came back.
#[derive(Debug, PartialEq, Eq, Structural, Clone, Copy)]
pub enum ConnectStep {
    /// The attempt succeeded: emit `connect` and stop — no further attempts,
    /// no sleep, no error.
    Connected,
    /// The attempt failed and attempts remain: sleep this many seconds, then
    /// retry.
    Retry(u64),
    /// The last attempt failed: sleep this many seconds, then emit a single
    /// `error` carrying this `errno` and give up.
    GiveUp(u64, i32),
}

/// One decision of the connect sequence.
pub fn connect_step(attempt: usize, outcome: Result<(), i32>) -> (s: ConnectStep)
    requires
        attempt < MAX_CONNECTION_ATTEMPTS,
    ensures
        outcome is Ok ==> s is Connected,
        outcome matches Err(e) ==> (if attempt + 1 < MAX_CONNECTION_ATTEMPTS {
            s matches ConnectStep::Retry(d) && d as nat == pow2(attempt as nat)
        } else {
            s matches ConnectStep::GiveUp(d, le) && d as nat == pow2(attempt as nat) && le == e
        }),
{
    match outcome {
        Ok(_) => ConnectStep::Connected,
        Err(e) => {
            let d = backoff_secs(attempt);
            if attempt + 1 < MAX_CONNECTION_ATTEMPTS {
                ConnectStep::Retry(d)
            } else {
                ConnectStep::GiveUp(d, e)
            }
        },
    }
}

impl VsockSocket {
    /// Synchronous part of `connect`: checks that the sink can still
    /// deliver before the retry sequence is started on its own thread. All
    /// outcomes of the sequence itself arrive as notifications.
    pub fn connect(&self) -> (r: Result<(), EngineError>)
        ensures
            !self.emitter@.released ==> r is Ok,
            self.emitter@.released ==> (r matches Err(k) && k is SinkReleased),
    {
        if self.emitter.released {
            return Err(EngineError::SinkReleased);
        }
        Ok(())
    }

    /// The whole retry sequence, judged over one OS outcome per attempt.
    /// Returns the total seconds slept. On the first successful attempt
    /// exactly one `connect` notification is emitted and no error ever
    /// follows; if every attempt fails, the full backoff
    /// `1 + 2 + 4 + 8 + 16 = 31` seconds is slept and exactly one `error`
    /// notification carries the last failure — `connect` is never emitted.
    pub fn connect_run(&mut self, outcomes: &Vec<Result<(), i32>>) -> (slept: u64)
        requires
            outcomes@.len() == MAX_CONNECTION_ATTEMPTS as int,
        ensures
            final(self).fd == old(self).fd,
            final(self).state == old(self).state,
            final(self).recv_started == old(self).recv_started,
            final(self).emitter@.released == old(self).emitter@.released,
            old(self).emitter@.released ==> final(self).emitter@.log == old(self).emitter@.log,
            (forall|j: int| 0 <= j < outcomes@.len() ==> (#[trigger] outcomes@[j]) is Err) ==> (
            slept == 31 && (!old(self).emitter@.released ==> final(self).emitter@.log == old(
                self,
            ).emitter@.log.push(
                NotifView::Error(outcomes@[MAX_CONNECTION_ATTEMPTS as int - 1]->Err_0),
            ))),
            forall|j: int|
                (0 <= j < outcomes@.len() && (#[trigger] outcomes@[j]) is Ok && (forall|k: int|
                    0 <= k < j ==> (#[trigger] outcomes@[k]) is Err)) ==> (slept as nat == pow2(
                    j as nat,
                ) - 1 && (!old(self).emitter@.released ==> final(self).emitter@.log == old(
                    self,
                ).emitter@.log.push(NotifView::Connect))),
    {
        let mut slept: u64 = 0;
        let mut attempt: usize = 0;
        let mut last_err: i32 = 0;
        while attempt < MAX_CONNECTION_ATTEMPTS
            invariant
                attempt <= MAX_CONNECTION_ATTEMPTS,
                outcomes@.len() == MAX_CONNECTION_ATTEMPTS as int,
                self.fd == old(self).fd,
                self.state == old(self).state,
                self.recv_started == old(self).recv_started,
                self.emitter@.released == old(self).emitter@.released,
                self.emitter@.log == old(self).emitter@.log,
                forall|k: int| 0 <= k < attempt as int ==> (#[trigger] outcomes@[k]) is Err,
                slept as nat == pow2(attempt as nat) - 1,
                attempt > 0 ==> last_err == outcomes@[attempt as int - 1]->Err_0,
            decreases MAX_CONNECTION_ATTEMPTS - attempt,
        {
            proof {
                reveal_with_fuel(pow2, 6);
            }
            match outcomes[attempt] {
                Ok(_) => {
                    let _ = self.emitter.emit(Notification::Connect);
                    return slept;
                },
                Err(e) => {
                    last_err = e;
                },
            }
            let d = backoff_secs(attempt);
            slept = slept + d;
            attempt = attempt + 1;
        }
        proof {
            reveal_with_fuel(pow2, 6);
        }
        let _ = self.emitter.emit(Notification::Error(last_err));
        slept
    }
}

} // verus!
