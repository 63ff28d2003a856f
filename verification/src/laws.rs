//! Laws of the library, stated and proved over the same spec functions
//! the executable contracts use: counters accumulate exactly the sum of
//! their deltas, gauges fold their operations in call order, names stay
//! unique, and the derived ratio gauges agree with their inputs once the
//! updates that recompute them have settled.

use vstd::prelude::*;
use crate::value::sat64;
use crate::metric::Metric;
use crate::event::Event;
use crate::catalog::StatView;
use crate::catalog::stat_wf;
use crate::catalog::init_stat;
use crate::aggregator::step;
use crate::aggregator::ratio_spec;
use crate::aggregator::lemma_step_wf;
use crate::registry::find_by_name;
use crate::registry::lemma_find_by_name;

verus! {

/// The sum of a sequence of deltas.
pub open spec fn sum_of(ds: Seq<int>) -> int
    decreases ds.len(),
{
    if ds.len() == 0 {
        0
    } else {
        sum_of(ds.drop_last()) + ds.last()
    }
}

/// The counter value after applying a sequence of increments in order,
/// exactly as `Metric::counter_increment_by` does.
pub open spec fn apply_increments(v0: int, ds: Seq<int>) -> int
    decreases ds.len(),
{
    if ds.len() == 0 {
        v0
    } else {
        sat64(apply_increments(v0, ds.drop_last()) + ds.last())
    }
}

/// For every sequence of non-negative increments on a counter holding
/// `v0`, the final value is `v0` plus the sum of the increments, as long
/// as that sum is representable (with saturating arithmetic no update is
/// ever lost, only capped at the top of the range).
pub proof fn lemma_counter_sum(v0: int, ds: Seq<int>)
    requires
        0 <= v0,
        forall|i: int| 0 <= i < ds.len() ==> ds[i] >= 0,
        v0 + sum_of(ds) <= i64::MAX,
    ensures
        apply_increments(v0, ds) == v0 + sum_of(ds),
    decreases ds.len(),
{
    if ds.len() > 0 {
        assert(ds.last() >= 0);
        lemma_counter_sum(v0, ds.drop_last());
    }
}

/// For every sequence of non-negative increments on a fresh counter, the
/// final value is exactly the sum of the increments, as long as that sum
/// is representable.
pub proof fn lemma_counter_sum_fresh(ds: Seq<int>)
    requires
        forall|i: int| 0 <= i < ds.len() ==> ds[i] >= 0,
        sum_of(ds) <= i64::MAX,
    ensures
        apply_increments(0, ds) == sum_of(ds),
{
    lemma_counter_sum(0, ds);
}

/// A counter never shrinks, whatever non-negative increments arrive.
pub proof fn lemma_counter_monotonic(v0: int, ds: Seq<int>)
    requires
        0 <= v0 <= i64::MAX,
        forall|i: int| 0 <= i < ds.len() ==> ds[i] >= 0,
    ensures
        apply_increments(v0, ds) >= v0,
    decreases ds.len(),
{
    if ds.len() > 0 {
        lemma_counter_monotonic(v0, ds.drop_last());
    }
}

/// One operation on a gauge: replace, add, or subtract, exactly as the
/// gauge methods of `Metric` do.
pub enum GaugeOp {
    SetTo(int),
    AddDelta(int),
    SubDelta(int),
}

/// The gauge value after one operation.
pub open spec fn gauge_op_result(v: int, op: GaugeOp) -> int {
    match op {
        GaugeOp::SetTo(x) => x,
        GaugeOp::AddDelta(d) => sat64(v + d),
        GaugeOp::SubDelta(d) => sat64(v - d),
    }
}

/// The gauge value after a sequence of operations applied in order (the
/// serialization of the calls).
pub open spec fn apply_gauge_ops(v0: int, ops: Seq<GaugeOp>) -> int
    decreases ops.len(),
{
    if ops.len() == 0 {
        v0
    } else {
        gauge_op_result(apply_gauge_ops(v0, ops.drop_last()), ops.last())
    }
}

/// The net effect of a sequence of adds and subtracts.
pub open spec fn net_of(ops: Seq<GaugeOp>) -> int
    decreases ops.len(),
{
    if ops.len() == 0 {
        0
    } else {
        net_of(ops.drop_last()) + match ops.last() {
            GaugeOp::SetTo(x) => 0,
            GaugeOp::AddDelta(d) => d,
            GaugeOp::SubDelta(d) => -d,
        }
    }
}

/// For a sequence of adds and subtracts (no replacement) whose running
/// result never leaves the representable range, the final gauge value is
/// the initial value plus the net sum of the deltas: the serialization in
/// call order computes exactly the arithmetic result.
pub proof fn lemma_gauge_net_sum(v0: int, ops: Seq<GaugeOp>)
    requires
        forall|i: int| 0 <= i < ops.len() ==> !((#[trigger] ops[i]) is SetTo),
        forall|k: int|
            0 <= k <= ops.len() ==> i64::MIN <= v0 + net_of(#[trigger] ops.take(k)) <= i64::MAX,
    ensures
        apply_gauge_ops(v0, ops) == v0 + net_of(ops),
    decreases ops.len(),
{
    if ops.len() > 0 {
        assert forall|k: int|
            0 <= k <= ops.drop_last().len() implies i64::MIN <= v0 + net_of(
            #[trigger] ops.drop_last().take(k),
        ) <= i64::MAX by {
            assert(ops.drop_last().take(k) =~= ops.take(k));
        }
        lemma_gauge_net_sum(v0, ops.drop_last());
        assert(ops.take(ops.len() - 1) =~= ops.drop_last());
        assert(ops.take(ops.len() as int) =~= ops);
    }
}

/// A replacement makes the history before it irrelevant: operations after
/// a `SetTo` compute from the value that was set.
pub proof fn lemma_gauge_set_resets(v0: int, x: int, ops: Seq<GaugeOp>)
    ensures
        apply_gauge_ops(v0, seq![GaugeOp::SetTo(x)] + ops) == apply_gauge_ops(x, ops),
    decreases ops.len(),
{
    if ops.len() == 0 {
        assert(seq![GaugeOp::SetTo(x)] + ops =~= seq![GaugeOp::SetTo(x)]);
    } else {
        assert((seq![GaugeOp::SetTo(x)] + ops).drop_last() =~= seq![GaugeOp::SetTo(x)]
            + ops.drop_last());
        lemma_gauge_set_resets(v0, x, ops.drop_last());
    }
}

/// In a well-formed store there is at most one metric per name, so a
/// get-or-create under a name always resolves to the one metric that
/// carries it: `find_by_name` finds exactly the index that holds it.
pub proof fn lemma_name_is_unique(s: Seq<Metric>, name: Seq<char>, i: int)
    requires
        forall|a: int, b: int| 0 <= a < b < s.len() ==> s[a]@.name != s[b]@.name,
        0 <= i < s.len(),
        s[i]@.name == name,
    ensures
        find_by_name(s, name) == i,
        forall|j: int| 0 <= j < s.len() && j != i ==> s[j]@.name != name,
{
    assert forall|j: int| 0 <= j < s.len() && j != i implies s[j]@.name != name by {
        if j < i {
            assert(s[j]@.name != s[i]@.name);
        } else {
            assert(s[i]@.name != s[j]@.name);
        }
    }
    lemma_find_by_name(s, name);
    let d = find_by_name(s, name);
    if d < s.len() && d != i {
        assert(s[d]@.name == name);
    }
}

/// The answer seizure ratio agrees with its inputs: as many outbound
/// sessions answered, over as many outbound sessions seen.
pub open spec fn asr_ok(s: StatView) -> bool {
    s.sessions_outbound > 0 ==> s.sessions_asr == ratio_spec(
        s.sessions_outbound_answered,
        s.sessions_outbound,
    )
}

/// The average call duration agrees with its inputs: the total outbound
/// call duration over the answered outbound sessions.
pub open spec fn acd_ok(s: StatView) -> bool {
    s.sessions_outbound_answered > 0 ==> s.sessions_acd == ratio_spec(
        s.sessions_outbound_duration_total,
        s.sessions_outbound_answered,
    )
}

/// Every single event preserves the answer-seizure-ratio invariant: each
/// update of either input recomputes the ratio against the value just
/// written, so after the updates stop the gauge equals the ratio of its
/// inputs exactly.
pub proof fn lemma_asr_preserved(s: StatView, e: Event)
    requires
        stat_wf(s),
        asr_ok(s),
    ensures
        asr_ok(step(s, e)),
{
}

/// The catalog as the aggregator leaves it after any sequence of events
/// delivered to a fresh module.
pub open spec fn run(s0: StatView, es: Seq<Event>) -> StatView
    decreases es.len(),
{
    if es.len() == 0 {
        s0
    } else {
        step(run(s0, es.drop_last()), es.last())
    }
}

/// A run of events keeps the catalog well formed.
pub proof fn lemma_run_wf(s0: StatView, es: Seq<Event>)
    requires
        stat_wf(s0),
    ensures
        stat_wf(run(s0, es)),
    decreases es.len(),
{
    if es.len() > 0 {
        lemma_run_wf(s0, es.drop_last());
        lemma_step_wf(run(s0, es.drop_last()), es.last());
    }
}

/// The answer-seizure-ratio invariant holds in every state a fresh
/// catalog can reach, whatever events arrive in whatever order: whenever
/// any outbound session has been seen, the ratio gauge reads answered
/// outbound sessions over outbound sessions, exactly.
pub proof fn lemma_asr_invariant(es: Seq<Event>)
    ensures
        asr_ok(run(init_stat(), es)),
    decreases es.len(),
{
    if es.len() > 0 {
        lemma_asr_invariant(es.drop_last());
        lemma_run_wf(init_stat(), es.drop_last());
        lemma_asr_preserved(run(init_stat(), es.drop_last()), es.last());
    }
}

/// A hangup of an answered outbound call settles the average call
/// duration: right after it, the gauge reads the new total duration over
/// the answered outbound sessions, exactly.
pub proof fn lemma_acd_after_hangup(s: StatView, e: Event, dir: Seq<char>, time: int)
    requires
        stat_wf(s),
        e.kind is ChannelHangup,
        ({
            let ts = e.spec_header("Caller-Channel-Answered-Time"@);
            ts matches Some(t) && crate::text::parse_int(t) == Some(time)
        }),
        time > 0,
        e.spec_header("Call-Direction"@) == Some(dir),
        dir != "inbound"@,
        s.sessions_outbound_answered > 0,
    ensures
        acd_ok(step(s, e)),
{
}

/// Every event that does not answer an outbound call preserves the
/// average-call-duration invariant (an outbound answer raises the
/// denominator without recomputing the gauge; the next hangup settles
/// it again).
pub proof fn lemma_acd_preserved(s: StatView, e: Event)
    requires
        stat_wf(s),
        acd_ok(s),
        !(e.kind is ChannelAnswer && (e.spec_header("Call-Direction"@) matches Some(dir)
            && dir != "inbound"@)),
    ensures
        acd_ok(step(s, e)),
{
}

} // verus!
