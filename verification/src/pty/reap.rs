//! The one-shot latch that decides who collects the exit status of a shell.
//!
//! Two paths may find that a shell is gone: its reader loop, when the stream
//! ends, and the manager's teardown. Both ask the session's latch. The first
//! to ask is handed a ticket and performs the wait; every later asker is
//! handed none and only waits for the latch to be done.

use vstd::prelude::*;

verus! {

/// How far the reaping of one shell has come.
#[derive(Clone, Copy, Debug, PartialEq, Eq, Structural)]
pub enum ReapState {
    /// Nobody has asked yet.
    Pending,
    /// One path holds the ticket and is waiting for the shell.
    Claimed,
    /// The exit status has been collected.
    Done,
}

/// The latch of one session.
#[derive(Debug)]
pub struct ReapLatch {
    state: ReapState,
}

/// The right, and the duty, to wait for the shell once. It cannot be copied,
/// and only a latch hands one out.
#[derive(Debug)]
pub struct ReapTicket {
    unit: (),
}

/// The latch after a claim.
pub open spec fn after_claim(state: ReapState) -> ReapState {
    match state {
        ReapState::Pending => ReapState::Claimed,
        other => other,
    }
}

/// The latch after the holder of the ticket has reported.
pub open spec fn after_complete(state: ReapState) -> ReapState {
    match state {
        ReapState::Claimed => ReapState::Done,
        other => other,
    }
}

impl View for ReapLatch {
    type V = ReapState;

    closed spec fn view(&self) -> ReapState {
        self.state
    }
}

impl ReapLatch {
    /// The latch of a shell that has just been started.
    pub fn new() -> (latch: ReapLatch)
        ensures
            latch@ == ReapState::Pending,
    {
        ReapLatch { state: ReapState::Pending }
    }

    /// Asks for the right to wait for the shell. Only the first claim is
    /// granted.
    pub fn claim(&mut self) -> (ticket: Option<ReapTicket>)
        ensures
            ticket is Some <==> old(self)@ == ReapState::Pending,
            final(self)@ == after_claim(old(self)@),
    {
        match self.state {
            ReapState::Pending => {
                self.state = ReapState::Claimed;
                Some(ReapTicket { unit: () })
            },
            _ => None,
        }
    }

    /// Reports that the holder of the ticket has collected the exit status.
    pub fn complete(&mut self, ticket: ReapTicket)
        ensures
            final(self)@ == after_complete(old(self)@),
    {
        match self.state {
            ReapState::Claimed => {
                self.state = ReapState::Done;
            },
            _ => {},
        }
    }

    pub fn state(&self) -> (state: ReapState)
        ensures
            state == self@,
    {
        self.state
    }

    /// Whether the exit status has been collected.
    pub fn is_done(&self) -> (done: bool)
        ensures
            done == (self@ == ReapState::Done),
    {
        match self.state {
            ReapState::Done => true,
            _ => false,
        }
    }
}

/// One call on a latch.
pub enum LatchCall {
    Claim,
    Complete,
}

/// The latch after `calls`, starting pending.
pub open spec fn latch_after(calls: Seq<LatchCall>) -> ReapState
    decreases calls.len(),
{
    if calls.len() == 0 {
        ReapState::Pending
    } else {
        match calls.last() {
            LatchCall::Claim => after_claim(latch_after(calls.drop_last())),
            LatchCall::Complete => after_complete(latch_after(calls.drop_last())),
        }
    }
}

/// The number of claims among `calls` that were granted, which is the number
/// of times the shell is waited for.
pub open spec fn tickets_granted(calls: Seq<LatchCall>) -> nat
    decreases calls.len(),
{
    if calls.len() == 0 {
        0
    } else {
        let before = calls.drop_last();
        let granted: nat = if calls.last() is Claim && latch_after(before) == ReapState::Pending {
            1
        } else {
            0
        };
        tickets_granted(before) + granted
    }
}

/// Reaped exactly once: however the two paths interleave their calls, at most
/// one claim is granted; exactly one as soon as anybody has claimed; and the
/// latch is never done without one.
pub proof fn law_reaped_once(calls: Seq<LatchCall>)
    ensures
        tickets_granted(calls) <= 1,
        tickets_granted(calls) == 1 <==> latch_after(calls) != ReapState::Pending,
        tickets_granted(calls) == 1 <==> exists|i: int| 0 <= i < calls.len() && calls[i] is Claim,
    decreases calls.len(),
{
    if calls.len() > 0 {
        let before = calls.drop_last();
        law_reaped_once(before);
        if tickets_granted(before) == 1 {
            let i = choose|i: int| 0 <= i < before.len() && before[i] is Claim;
            assert(calls[i] is Claim);
        } else if calls.last() is Claim {
            assert(calls[calls.len() - 1] is Claim);
        } else {
            assert forall|i: int| 0 <= i < calls.len() implies !(calls[i] is Claim) by {
                if i < before.len() {
                    assert(before[i] == calls[i]);
                }
            }
        }
    }
}

} // verus!
