use crate::sink::Level;
use crate::sink::RecordView;
use crate::sink::Sink;
use crate::slot::after_store;
use vstd::prelude::*;

verus! {

/// Once a sink with value `next` is stored, every observation made with no
/// further store in between — a log, an enabled check, a load — is served
/// by that sink, never by the displaced one.
pub proof fn lemma_store_then_observe<D: Sink>(
    prev: D::V,
    next: D::V,
    record: RecordView,
    level: Level,
)
    ensures
        D::log_out(after_store(prev, next), record) == D::log_out(next, record),
        D::enabled(after_store(prev, next), level) == D::enabled(next, level),
        after_store(prev, next) == next,
{
}

/// After an exchange, the slot holds the supplied sink: a load that follows
/// a swap for `next` returns `next`, whatever was held before.
pub proof fn lemma_swap_then_load<V>(prev: V, next: V)
    ensures
        after_store(prev, next) == next,
{
}

/// Installing `a`, then `b`, then `a` again leaves the slot exactly as one
/// installation of `a` would, as far as anything observed afterwards is
/// concerned.
pub proof fn lemma_store_round_trip<V>(start: V, a: V, b: V)
    ensures
        after_store(after_store(after_store(start, a), b), a) == after_store(start, a),
{
}

} // verus!
