use crate::sink::Sink;
use crate::slot::after_store;
use crate::switch::AtomicSwitchCtrl;
use vstd::prelude::*;

verus! {

/// The flag state after `n` further trigger calls on a flag whose state is
/// `pending`: one trigger raises it, and later triggers leave it raised.
pub open spec fn after_triggers(pending: bool, n: nat) -> bool
    decreases n,
{
    if n == 0 {
        pending
    } else {
        after_triggers(true, (n - 1) as nat)
    }
}

/// Triggering a flag any positive number of times leaves exactly one
/// pending request: the triggers coalesce, no matter how many there were
/// and what the flag held before.
pub proof fn lemma_triggers_coalesce(pending: bool, n: nat)
    requires
        n >= 1,
    ensures
        after_triggers(pending, n),
    decreases n,
{
    assert(after_triggers(pending, n) == after_triggers(true, (n - 1) as nat));
    if n > 1 {
        lemma_triggers_coalesce(true, (n - 1) as nat);
    } else {
        assert(after_triggers(true, 0));
    }
}

/// A single pending-work flag, carrying a request from a restricted
/// asynchronous context to an ordinary poll loop.
///
/// The restricted side may only raise it ([`PendingFlag::trigger`]); the
/// poll side reads and clears it in one step ([`PendingFlag::consume`]).
/// There is no queue: any number of triggers before one consumption
/// collapse to one pending request.
pub struct PendingFlag {
    pending: bool,
}

impl View for PendingFlag {
    type V = bool;

    /// Whether a request is pending.
    closed spec fn view(&self) -> bool {
        self.pending
    }
}

impl PendingFlag {
    /// A fresh flag, with nothing pending.
    pub fn new() -> (f: PendingFlag)
        ensures
            !f@,
    {
        PendingFlag { pending: false }
    }

    /// Request work: raise the flag. The one action allowed to the
    /// asynchronous trigger; repeating it changes nothing further.
    pub fn trigger(&mut self)
        ensures
            final(self)@ == after_triggers(old(self)@, 1),
    {
        self.pending = true;
        proof {
            assert(after_triggers(old(self)@, 1) == after_triggers(true, 0));
            assert(after_triggers(true, 0));
        }
    }

    /// Read and clear the flag in one step, reporting whether work was
    /// pending.
    pub fn consume(&mut self) -> (was_pending: bool)
        ensures
            was_pending == old(self)@,
            !final(self)@,
    {
        let was: bool = self.pending;
        self.pending = false;
        was
    }
}

/// One iteration of the poll loop: consume the flag and, exactly when a
/// request was pending, install `drain`. A request that was triggered any
/// number of times is applied once; with nothing pending, the controller
/// is untouched and `drain` is handed back.
pub fn poll_apply<D: Sink>(flag: &mut PendingFlag, ctrl: &mut AtomicSwitchCtrl<D>, drain: D) -> (unused: Option<D>)
    ensures
        !final(flag)@,
        old(flag)@ ==> final(ctrl)@ == after_store(old(ctrl)@, drain@) && unused is None,
        !old(flag)@ ==> final(ctrl)@ == old(ctrl)@ && unused == Some(drain),
{
    if flag.consume() {
        ctrl.set(drain);
        None
    } else {
        Some(drain)
    }
}

} // verus!
