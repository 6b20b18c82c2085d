use std::sync::Arc;
use vstd::prelude::*;

verus! {

/// The slot state after a sink with value `next` is stored over a slot
/// holding `prev`: the new sink replaces the old one wholesale.
pub open spec fn after_store<V>(prev: V, next: V) -> V {
    next
}

/// Interior storage of a slot: arc-swap's lock-free cell, holding one
/// reference-counted sink. Opaque to the verifier; it is reached only from
/// this module, whose every mutation of it also updates the ghost mirror
/// in [`SharedSlot`].
#[verifier::external_body]
#[verifier::reject_recursive_types(D)]
struct SlotCell<D> {
    inner: arc_swap::ArcSwap<D>,
}

impl<D> SlotCell<D> {
    /// Relies on `arc_swap::ArcSwapAny::from_pointee`: the new cell holds
    /// exactly the one value it was built from.
    #[verifier::external_body]
    fn new(sink: D) -> SlotCell<D> {
        SlotCell { inner: arc_swap::ArcSwap::from_pointee(sink) }
    }

    /// Relies on `arc_swap::ArcSwapAny::store`: it replaces the held
    /// value, and further loads yield the new one.
    #[verifier::external_body]
    fn store(&self, sink: D) {
        self.inner.store(Arc::new(sink));
    }
}

/// A cell holding exactly one live sink at any instant, replaceable
/// wholesale and never edited in place.
///
/// The cell is backed by `arc_swap::ArcSwap`, whose load and swap are
/// lock-free: at runtime a replacement never blocks a reader, a reader
/// sees either the old or the new sink entire, and a displaced sink stays
/// alive until its last holder drops it. The contracts below state the
/// sequential face of that cell — what each operation loads, stores and
/// returns under exclusive access; `current` is the ghost mirror of the
/// cell's contents.
#[verifier::reject_recursive_types(D)]
pub struct SharedSlot<D: View> {
    cell: SlotCell<D>,
    current: Ghost<D::V>,
}

impl<D: View> View for SharedSlot<D> {
    type V = D::V;

    /// A slot's value is the value of the sink it holds.
    closed spec fn view(&self) -> D::V {
        self.current@
    }
}

impl<D: View> SharedSlot<D> {
    /// Wrap `sink` in a fresh slot.
    pub fn new(sink: D) -> (s: Self)
        ensures
            s@ == sink@,
    {
        let ghost v = sink@;
        SharedSlot { cell: SlotCell::new(sink), current: Ghost(v) }
    }

    /// A reference-counted handle to the sink the slot holds now.
    ///
    /// Relies on `arc_swap::ArcSwapAny::load_full`: it returns another
    /// handle to the held sink, leaving the cell unchanged.
    #[verifier::external_body]
    pub fn load(&self) -> (r: Arc<D>)
        ensures
            r@ == self@,
    {
        self.cell.inner.load_full()
    }

    /// Replace the held sink with `sink`; the displaced one is dropped
    /// once its last holder is done with it.
    pub fn store(&mut self, sink: D)
        ensures
            final(self)@ == after_store(old(self)@, sink@),
    {
        self.current = Ghost(sink@);
        self.cell.store(sink);
    }

    /// Exchange the held sink for `sink`, returning the one held before.
    ///
    /// Relies on `arc_swap::ArcSwapAny::swap`: the supplied handle goes
    /// in, the previously held handle comes out intact.
    #[verifier::external_body]
    pub fn swap(&mut self, sink: Arc<D>) -> (r: Arc<D>)
        ensures
            r@ == old(self)@,
            final(self)@ == after_store(old(self)@, sink@),
    {
        self.cell.inner.swap(sink)
    }
}

} // verus!
