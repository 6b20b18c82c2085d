use crate::sink::DiscardSink;
use crate::sink::Level;
use crate::sink::RecordView;
use crate::sink::Sink;
use crate::sink::SinkRecord;
use crate::slot::SharedSlot;
use crate::slot::after_store;
use std::sync::Arc;
use vstd::prelude::*;

verus! {

/// The read-side handle: a sink wrapping another sink, allowing atomic
/// substitution of the wrapped one at runtime.
///
/// `AtomicSwitch` is itself a [`Sink`], so it can stand anywhere a sink is
/// expected; every `log` and `is_enabled` call is served entirely by the
/// sink its slot holds at that moment.
#[verifier::reject_recursive_types(D)]
pub struct AtomicSwitch<D: Sink> {
    slot: SharedSlot<D>,
}

/// The write-side handle: it replaces the sink behind an [`AtomicSwitch`].
#[verifier::reject_recursive_types(D)]
pub struct AtomicSwitchCtrl<D: Sink> {
    slot: SharedSlot<D>,
}

impl<D: Sink> View for AtomicSwitch<D> {
    type V = D::V;

    /// A switch's value is the value of the sink currently installed.
    closed spec fn view(&self) -> D::V {
        self.slot@
    }
}

impl<D: Sink> View for AtomicSwitchCtrl<D> {
    type V = D::V;

    /// A controller's value is the value of the sink currently installed.
    closed spec fn view(&self) -> D::V {
        self.slot@
    }
}

impl<D: Sink> AtomicSwitch<D> {
    /// Wrap `drain` in an `AtomicSwitch` to allow swapping it later.
    ///
    /// Use [`AtomicSwitch::ctrl`] to get a handle that controls it.
    pub fn new(drain: D) -> (s: Self)
        ensures
            s@ == drain@,
    {
        AtomicSwitch { slot: SharedSlot::new(drain) }
    }

    /// Create a new `AtomicSwitch` over an existing slot.
    ///
    /// See [`AtomicSwitch::new`].
    pub fn new_from_arc(d: SharedSlot<D>) -> (s: Self)
        ensures
            s@ == d@,
    {
        AtomicSwitch { slot: d }
    }

    /// Turn this switch into the [`AtomicSwitchCtrl`] handle that controls
    /// its slot.
    pub fn ctrl(self) -> (c: AtomicSwitchCtrl<D>)
        ensures
            c@ == self@,
    {
        AtomicSwitchCtrl { slot: self.slot }
    }
}

impl<D: Sink> Sink for AtomicSwitch<D> {
    type Ok = D::Ok;

    type Err = D::Err;

    /// A switch answers a record exactly as the installed sink does.
    open spec fn log_out(v: D::V, record: RecordView) -> Result<D::Ok, D::Err> {
        D::log_out(v, record)
    }

    /// A switch accepts a severity exactly when the installed sink does.
    open spec fn enabled(v: D::V, level: Level) -> bool {
        D::enabled(v, level)
    }

    /// Hand `record` to the installed sink: the whole call is served by
    /// the one sink current when it starts, never by a mix of two.
    fn log(&self, record: &SinkRecord) -> (r: Result<D::Ok, D::Err>) {
        let current: Arc<D> = self.slot.load();
        current.log(record)
    }

    /// Ask the installed sink whether it accepts severity `level`.
    fn is_enabled(&self, level: Level) -> (r: bool) {
        let current: Arc<D> = self.slot.load();
        current.is_enabled(level)
    }
}

impl Default for AtomicSwitch<DiscardSink> {
    /// A switch over a sink that accepts nothing.
    fn default() -> (s: Self)
        ensures
            s@ == (DiscardSink {}),
    {
        AtomicSwitch::new(DiscardSink)
    }
}

impl<D: Sink> AtomicSwitchCtrl<D> {
    /// A reference-counted handle to the currently installed sink,
    /// without replacing it.
    pub fn get(&self) -> (r: Arc<D>)
        ensures
            r@ == self@,
    {
        self.slot.load()
    }

    /// Install `drain` in place of the current sink. The displaced sink
    /// is dropped once its last holder is done with it; a reader that
    /// already began a call finishes it on the sink it loaded.
    pub fn set(&mut self, drain: D)
        ensures
            final(self)@ == after_store(old(self)@, drain@),
    {
        self.slot.store(drain)
    }

    /// Exchange the installed sink for `drain`, returning the sink that
    /// was current immediately before the call, intact.
    pub fn swap(&mut self, drain: Arc<D>) -> (r: Arc<D>)
        ensures
            r@ == old(self)@,
            final(self)@ == after_store(old(self)@, drain@),
    {
        self.slot.swap(drain)
    }

    /// Turn this controller back into the [`AtomicSwitch`] reader handle
    /// bound to the same slot.
    pub fn drain(self) -> (s: AtomicSwitch<D>)
        ensures
            s@ == self@,
    {
        AtomicSwitch { slot: self.slot }
    }
}

} // verus!
