//! The mathematical model of what a shared bus device goes through: a trace
//! of completed mode changes and transactions, in the order the device saw
//! them.  Contracts all over the crate state how an operation extends this
//! trace; the lemmas here state the mode guarantee that follows.

use vstd::prelude::*;

use crate::spi_mode::SpiMode;

verus! {

/// One thing a bus device was observed to do.
pub enum SpiEvent {
    /// The device was told to adopt this polarity/phase.
    ModeChange(SpiMode),
    /// A write completed: these bytes went out, incoming bytes were ignored.
    Write(Seq<u8>),
    /// A full-duplex transfer completed: the first sequence went out, the
    /// second came back in its place.
    Transfer(Seq<u8>, Seq<u8>),
}

/// True of the events that drive the bus lines: a write or a transfer,
/// as opposed to a mode change.
pub open spec fn is_transaction(e: SpiEvent) -> bool {
    e is Write || e is Transfer
}

/// The mode in effect just before event `i` of `trace`: the value of the
/// latest mode change among the events before `i`, or `None` if no mode
/// change precedes `i`.
pub open spec fn mode_before(trace: Seq<SpiEvent>, i: int) -> Option<SpiMode>
    decreases i,
{
    if i <= 0 || i > trace.len() {
        None
    } else if trace[i - 1] is ModeChange {
        Some(trace[i - 1]->ModeChange_0)
    } else {
        mode_before(trace, i - 1)
    }
}

/// Every transaction issued through a mode-bound handle observes the bus in
/// that handle's own mode.  A handle extends the trace by exactly the pair
/// "mode change to the bound mode, then the transaction", so whatever any
/// other handle did before, the mode in effect at the transaction is the
/// bound mode.
pub proof fn lemma_transaction_observes_bound_mode(trace: Seq<SpiEvent>, mode: SpiMode, op: SpiEvent)
    requires
        is_transaction(op),
    ensures
        mode_before(trace.push(SpiEvent::ModeChange(mode)).push(op), trace.len() as int + 1) == Some(
            mode,
        ),
{
}

/// The trace that a run of handle calls from a single context leaves behind,
/// given, per call, the handle's bound mode and the transaction performed:
/// each call appends its mode change and then its transaction.
pub open spec fn trace_of_calls(calls: Seq<(SpiMode, SpiEvent)>) -> Seq<SpiEvent>
    decreases calls.len(),
{
    if calls.len() == 0 {
        Seq::empty()
    } else {
        trace_of_calls(calls.drop_last()).push(SpiEvent::ModeChange(calls.last().0)).push(
            calls.last().1,
        )
    }
}

proof fn lemma_trace_of_calls_len(calls: Seq<(SpiMode, SpiEvent)>)
    ensures
        trace_of_calls(calls).len() == 2 * calls.len(),
    decreases calls.len(),
{
    if calls.len() > 0 {
        lemma_trace_of_calls_len(calls.drop_last());
    }
}

/// The mode in effect just before event `i` depends only on the events
/// before `i`.
proof fn lemma_mode_before_of_prefix(shorter: Seq<SpiEvent>, longer: Seq<SpiEvent>, i: int)
    requires
        0 <= i <= shorter.len(),
        i <= longer.len(),
        forall|j: int| 0 <= j < i ==> shorter[j] == longer[j],
    ensures
        mode_before(shorter, i) == mode_before(longer, i),
    decreases i,
{
    if i > 0 && !(shorter[i - 1] is ModeChange) {
        lemma_mode_before_of_prefix(shorter, longer, i - 1);
    }
}

/// In any sequence of transfer/write calls issued from a single context (no
/// overlap, so every call succeeds), every call observes the bus in its own
/// handle's bound mode at call time, regardless of how calls through other
/// handles came before it.
pub proof fn lemma_every_call_observes_its_own_mode(calls: Seq<(SpiMode, SpiEvent)>, k: int)
    requires
        0 <= k < calls.len(),
        is_transaction(calls[k].1),
    ensures
        trace_of_calls(calls)[2 * k + 1] == calls[k].1,
        mode_before(trace_of_calls(calls), 2 * k + 1) == Some(calls[k].0),
    decreases calls.len(),
{
    let prefix = trace_of_calls(calls.drop_last());
    lemma_trace_of_calls_len(calls.drop_last());
    if k == calls.len() - 1 {
        lemma_transaction_observes_bound_mode(prefix, calls[k].0, calls[k].1);
    } else {
        lemma_every_call_observes_its_own_mode(calls.drop_last(), k);
        lemma_mode_before_of_prefix(prefix, trace_of_calls(calls), 2 * k + 1);
    }
}

/// Mode values are independent per handle: after a call through a handle
/// bound to `mode_a` and then a call through a handle bound to `mode_b` on
/// the same bus, the first transaction observes `mode_a`, the second observes
/// `mode_b`, and no transaction stands between the two.
pub proof fn lemma_modes_independent_per_handle(
    trace: Seq<SpiEvent>,
    mode_a: SpiMode,
    op_a: SpiEvent,
    mode_b: SpiMode,
    op_b: SpiEvent,
)
    requires
        is_transaction(op_a),
        is_transaction(op_b),
    ensures
        ({
            let t = trace.push(SpiEvent::ModeChange(mode_a)).push(op_a).push(
                SpiEvent::ModeChange(mode_b),
            ).push(op_b);
            &&& mode_before(t, trace.len() as int + 1) == Some(mode_a)
            &&& mode_before(t, trace.len() as int + 3) == Some(mode_b)
            &&& !is_transaction(t[trace.len() as int + 2])
        }),
{
}

} // verus!
