//! Decisions of the resilient channel handle: a send to a worker that died
//! respawns it and retries exactly once, and a second failure is handed to the
//! caller, so a dead worker never causes a respawn storm.
use vstd::prelude::*;

verus! {

/// What the handle does next after a send attempt.
#[derive(Debug, Clone, Copy, PartialEq, Eq, Structural)]
pub enum SendAction {
    /// The endpoint is still closed: spawn a new worker with the factory, then
    /// send again on its endpoint.
    RespawnAndRetry,
    /// Another caller already replaced the endpoint: send again on it.
    Retry,
    /// The send is over: `true` when the message was delivered, `false` when
    /// the error goes to the caller.
    Finish(bool),
}

/// Where a send stands: how many attempts were made.
#[derive(Debug, Clone, Copy, PartialEq, Eq, Structural)]
pub struct SendAttempt {
    attempts: u8,
}

/// The attempt count and the action after an attempt of a send that had made
/// `attempts` attempts before, given whether this one was delivered and whether
/// the endpoint was seen closed afterwards.
pub open spec fn send_step(attempts: u8, delivered: bool, endpoint_closed: bool) -> (u8, SendAction) {
    if delivered {
        ((attempts + 1) as u8, SendAction::Finish(true))
    } else if attempts == 0 {
        if endpoint_closed {
            (1, SendAction::RespawnAndRetry)
        } else {
            (1, SendAction::Retry)
        }
    } else {
        ((attempts + 1) as u8, SendAction::Finish(false))
    }
}

impl SendAttempt {
    /// Attempts made so far.
    pub closed spec fn attempts(&self) -> u8 {
        self.attempts
    }

    /// Whether another attempt may be made.
    pub open spec fn open_attempt(&self) -> bool {
        self.attempts() < 2
    }

    /// A send that has made no attempt yet.
    pub fn new() -> (s: Self)
        ensures
            s.attempts() == 0,
    {
        SendAttempt { attempts: 0 }
    }

    /// Records the outcome of an attempt and says what to do next. A delivered
    /// message ends the send. After a failed first attempt the endpoint is
    /// checked again under exclusive access: still closed means respawn, else
    /// another caller respawned already; either way exactly one retry follows.
    /// A failed retry ends the send with the error.
    pub fn record(&mut self, delivered: bool, endpoint_closed: bool) -> (r: SendAction)
        requires
            old(self).open_attempt(),
        ensures
            (final(self).attempts(), r) == send_step(old(self).attempts(), delivered, endpoint_closed),
    {
        let attempts = self.attempts;
        self.attempts = attempts + 1;
        if delivered {
            SendAction::Finish(true)
        } else if attempts == 0 {
            if endpoint_closed {
                SendAction::RespawnAndRetry
            } else {
                SendAction::Retry
            }
        } else {
            SendAction::Finish(false)
        }
    }
}

/// Whatever two attempts bring, the second one ends the send: at most one
/// respawn and one retry ever follow a failure. When the retry fails too, the
/// failure is handed to the caller.
pub proof fn lemma_single_retry(
    d1: bool,
    c1: bool,
    d2: bool,
    c2: bool,
)
    ensures
        send_step(0, d1, c1).1 is Finish || send_step(send_step(0, d1, c1).0, d2, c2).1 is Finish,
        !d1 && !d2 ==> send_step(send_step(0, d1, c1).0, d2, c2).1 == SendAction::Finish(false),
        !d1 && c1 ==> send_step(0, d1, c1).1 == SendAction::RespawnAndRetry,
{
}

} // verus!
