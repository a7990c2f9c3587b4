//! Laws about everything that can happen to a target between its
//! construction and its end.
//!
//! The operations of [`Target`](crate::target::Target) are lifted to data,
//! so that a whole life is a sequence of them, and the calls it asks of the
//! driver are one trace.

use vstd::prelude::*;
use crate::error::VigemError;
use crate::kinds::TargetType;
use crate::model::TargetModel;
use crate::native::{
    free_count,
    lemma_free_count_concat,
    lemma_remove_count_concat,
    remove_count,
    NativeCall,
    NativeTarget,
};
use crate::report::{DSReport, XUSBReport};

verus! {

/// One operation on a target, with its arguments.
pub enum Op {
    /// `set_client` with a reference to the given client handle.
    SetClient(usize),
    /// `refresh` with a record read from the driver.
    Refresh(NativeTarget),
    /// `index`.
    Index,
    /// `is_attached`.
    IsAttached,
    /// `update` with a report that converted to these shapes.
    Update(Option<XUSBReport>, Option<DSReport>),
    /// `unregister_notification`.
    UnregisterNotification,
    /// `set_vid`.
    SetVid(u16),
    /// `set_pid`.
    SetPid(u16),
    /// `free`.
    Free,
    /// `teardown`.
    Teardown,
}

/// A target together with the calls asked of the driver so far.
pub struct Life {
    pub target: TargetModel,
    pub calls: Seq<NativeCall>,
}

/// The call that an operation asks for, if it asks for one: a refused
/// operation asks for nothing.
pub open spec fn asked<E>(plan: Result<NativeCall, E>) -> Seq<NativeCall> {
    match plan {
        Ok(call) => seq![call],
        Err(_) => Seq::empty(),
    }
}

/// The calls that `op` asks of the driver on target `m`.
pub open spec fn calls_of(m: TargetModel, op: Op) -> Seq<NativeCall> {
    match op {
        Op::SetClient(_) => Seq::empty(),
        Op::Refresh(_) => Seq::empty(),
        Op::Index => seq![NativeCall::GetIndex { target: m.raw.handle }],
        Op::IsAttached => seq![NativeCall::IsAttached { target: m.raw.handle }],
        Op::Update(xusb, ds) => asked(m.update_plan(xusb, ds)),
        Op::UnregisterNotification => asked(m.unregister_plan()),
        Op::SetVid(vid) => seq![NativeCall::SetVid { target: m.raw.handle, vid }],
        Op::SetPid(pid) => seq![NativeCall::SetPid { target: m.raw.handle, pid }],
        Op::Free => asked(m.free_plan()),
        Op::Teardown => m.teardown_calls(),
    }
}

/// The target that `op` leaves behind on target `m`.
pub open spec fn target_after(m: TargetModel, op: Op) -> TargetModel {
    match op {
        Op::SetClient(client) => m.with_client(client),
        Op::Refresh(raw) => m.refreshed(raw),
        Op::Free => m.after_free(),
        Op::Teardown => m.after_teardown(),
        _ => m,
    }
}

/// The life of target `m` under the operations `ops`, first to last.
pub open spec fn run(m: TargetModel, ops: Seq<Op>) -> Life
    decreases ops.len(),
{
    if ops.len() == 0 {
        Life { target: m, calls: Seq::empty() }
    } else {
        let before = run(m, ops.drop_last());
        Life {
            target: target_after(before.target, ops.last()),
            calls: before.calls + calls_of(before.target, ops.last()),
        }
    }
}

/// Whether every release in `calls` is a release of the handle `target`.
pub open spec fn releases_only(calls: Seq<NativeCall>, target: usize) -> bool {
    forall|i: int|
        0 <= i < calls.len() ==> match #[trigger] calls[i] {
            NativeCall::Free { target: t } => t == target,
            NativeCall::Remove { client: _, target: t } => t == target,
            _ => true,
        }
}

/// What one operation adds to the count of releases.
pub proof fn lemma_step_counts(m: TargetModel, op: Op)
    ensures
        free_count(calls_of(m, op)) == (if target_after(m, op).released && !m.released {
            1nat
        } else {
            0nat
        }),
        remove_count(calls_of(m, op)) <= free_count(calls_of(m, op)),
        m.released ==> target_after(m, op).released,
        target_after(m, op).released && !m.released ==> m.provenance is Owned,
        target_after(m, op).provenance == m.provenance,
        target_after(m, op).raw.handle == m.raw.handle,
        m.client is Some ==> target_after(m, op).client is Some,
        m.well_formed() ==> target_after(m, op).well_formed(),
        releases_only(calls_of(m, op), m.raw.handle),
{
    let calls = calls_of(m, op);
    reveal_with_fuel(free_count, 3);
    reveal_with_fuel(remove_count, 3);
    if calls.len() == 1 {
        assert(calls.drop_last() =~= Seq::<NativeCall>::empty());
    } else if calls.len() == 2 {
        assert(calls.drop_last().drop_last() =~= Seq::<NativeCall>::empty());
        assert(calls.drop_last().last() == calls[0]);
    }
}

/// Over any life, what stays as it was and what is counted: the provenance
/// and the handle never change; a client reference, once held, is held to
/// the end; a released target stays released; and the trace holds exactly
/// one free for a target that went from live to released, none otherwise,
/// with never more removals than frees, all of them for the target's own
/// handle.
pub proof fn lemma_life(m: TargetModel, ops: Seq<Op>)
    ensures
        run(m, ops).target.provenance == m.provenance,
        run(m, ops).target.raw.handle == m.raw.handle,
        m.client is Some ==> run(m, ops).target.client is Some,
        m.released ==> run(m, ops).target.released,
        m.well_formed() ==> run(m, ops).target.well_formed(),
        free_count(run(m, ops).calls) == (if run(m, ops).target.released && !m.released {
            1nat
        } else {
            0nat
        }),
        remove_count(run(m, ops).calls) <= free_count(run(m, ops).calls),
        run(m, ops).target.released && !m.released ==> m.provenance is Owned,
        releases_only(run(m, ops).calls, m.raw.handle),
    decreases ops.len(),
{
    if ops.len() > 0 {
        let before = run(m, ops.drop_last());
        lemma_life(m, ops.drop_last());
        lemma_step_counts(before.target, ops.last());
        lemma_free_count_concat(before.calls, calls_of(before.target, ops.last()));
        lemma_remove_count_concat(before.calls, calls_of(before.target, ops.last()));
    }
}

/// Running `a` and then `b` is running `b` on what `a` left, with the two
/// traces in a row.
pub proof fn lemma_run_concat(m: TargetModel, a: Seq<Op>, b: Seq<Op>)
    ensures
        run(m, a + b).target == run(run(m, a).target, b).target,
        run(m, a + b).calls == run(m, a).calls + run(run(m, a).target, b).calls,
    decreases b.len(),
{
    if b.len() == 0 {
        assert(a + b =~= a);
        assert(run(m, a).calls + Seq::<NativeCall>::empty() =~= run(m, a).calls);
    } else {
        assert((a + b).drop_last() =~= a + b.drop_last());
        assert((a + b).last() == b.last());
        lemma_run_concat(m, a, b.drop_last());
        let mid = run(m, a);
        let inner = run(mid.target, b.drop_last());
        assert((mid.calls + inner.calls) + calls_of(inner.target, b.last()) =~= mid.calls + (
        inner.calls + calls_of(inner.target, b.last())));
    }
}

/// No operation of this layer alters the record: between two reads from the
/// driver the record is the one last read.
pub proof fn lemma_record_kept_between_reads(m: TargetModel, ops: Seq<Op>)
    requires
        forall|i: int| 0 <= i < ops.len() ==> !(#[trigger] ops[i] is Refresh),
    ensures
        run(m, ops).target.raw == m.raw,
    decreases ops.len(),
{
    if ops.len() > 0 {
        let earlier = ops.drop_last();
        assert forall|i: int| 0 <= i < earlier.len() implies !(#[trigger] earlier[i] is Refresh) by {
            assert(earlier[i] == ops[i]);
        }
        lemma_record_kept_between_reads(m, earlier);
        assert(!(ops[ops.len() - 1] is Refresh));
    }
}

/// A target allocated for type `tt` reports type `tt`: at once, and after
/// any operations for as long as its record is not read again.
pub proof fn lemma_allocated_type_is_reported(tt: TargetType, raw: NativeTarget, ops: Seq<Op>)
    requires
        TargetModel::delivers(tt, raw),
        forall|i: int| 0 <= i < ops.len() ==> !(#[trigger] ops[i] is Refresh),
    ensures
        TargetModel::owned(raw).target_type() == Ok::<TargetType, VigemError>(tt),
        run(TargetModel::owned(raw), ops).target.target_type() == Ok::<TargetType, VigemError>(tt),
{
    TargetType::lemma_code_round_trip(tt);
    lemma_record_kept_between_reads(TargetModel::owned(raw), ops);
}

/// An owned target is never released twice: whatever is done to it, and in
/// whatever order, the trace holds at most one free and at most one removal
/// from the bus.
pub proof fn lemma_owned_never_released_twice(m: TargetModel, ops: Seq<Op>)
    requires
        m.provenance is Owned,
    ensures
        free_count(run(m, ops).calls) <= 1,
        remove_count(run(m, ops).calls) <= 1,
{
    lemma_life(m, ops);
}

/// An owned target is released exactly once: in any life that holds a
/// teardown, whatever comes before and after it and whether or not the
/// target ever referred to a client, the trace holds exactly one free, and
/// the target ends released.
pub proof fn lemma_owned_released_exactly_once(m: TargetModel, before: Seq<Op>, after: Seq<Op>)
    requires
        m.provenance is Owned,
        !m.released,
    ensures
        free_count(run(m, before.push(Op::Teardown) + after).calls) == 1,
        remove_count(run(m, before.push(Op::Teardown) + after).calls) <= 1,
        run(m, before.push(Op::Teardown) + after).target.released,
{
    let ops = before.push(Op::Teardown);
    assert(ops.drop_last() =~= before);
    assert(ops.last() == Op::Teardown);
    lemma_life(m, before);
    assert(run(m, ops).target.released);
    lemma_run_concat(m, ops, after);
    lemma_life(run(m, ops).target, after);
    lemma_life(m, ops + after);
}

/// Where the target refers to a client when it is torn down, and nobody
/// freed it by hand before, the one release is in full: exactly one removal
/// from the bus and exactly one free.
pub proof fn lemma_teardown_releases_in_full(m: TargetModel, before: Seq<Op>, after: Seq<Op>)
    requires
        m.provenance is Owned,
        !m.released,
        run(m, before).target.client is Some,
        !run(m, before).target.released,
    ensures
        free_count(run(m, before.push(Op::Teardown) + after).calls) == 1,
        remove_count(run(m, before.push(Op::Teardown) + after).calls) == 1,
{
    let ops = before.push(Op::Teardown);
    let mid = run(m, before);
    assert(ops.drop_last() =~= before);
    assert(ops.last() == Op::Teardown);
    lemma_life(m, before);
    let pair = calls_of(mid.target, Op::Teardown);
    reveal_with_fuel(remove_count, 3);
    assert(pair.drop_last().drop_last() =~= Seq::<NativeCall>::empty());
    assert(remove_count(pair) == 1);
    lemma_remove_count_concat(mid.calls, pair);
    assert(remove_count(run(m, ops).calls) == 1);
    lemma_run_concat(m, ops, after);
    lemma_life(run(m, ops).target, after);
    lemma_remove_count_concat(run(m, ops).calls, run(run(m, ops).target, after).calls);
    lemma_owned_released_exactly_once(m, before, after);
}

/// Where the target refers to no client when it is torn down, it is freed
/// once and never taken off a bus: no removal is asked for with a client
/// that is not there.
pub proof fn lemma_unattached_teardown_frees_only(
    m: TargetModel,
    before: Seq<Op>,
    after: Seq<Op>,
)
    requires
        m.provenance is Owned,
        !m.released,
        run(m, before).target.client is None,
        !run(m, before).target.released,
    ensures
        free_count(run(m, before.push(Op::Teardown) + after).calls) == 1,
        remove_count(run(m, before.push(Op::Teardown) + after).calls) == 0,
{
    let ops = before.push(Op::Teardown);
    let mid = run(m, before);
    assert(ops.drop_last() =~= before);
    assert(ops.last() == Op::Teardown);
    lemma_life(m, before);
    let single = calls_of(mid.target, Op::Teardown);
    reveal_with_fuel(remove_count, 2);
    assert(single.drop_last() =~= Seq::<NativeCall>::empty());
    assert(remove_count(single) == 0);
    lemma_remove_count_concat(mid.calls, single);
    assert(remove_count(run(m, ops).calls) == 0);
    lemma_run_concat(m, ops, after);
    lemma_life(run(m, ops).target, after);
    lemma_remove_count_concat(run(m, ops).calls, run(run(m, ops).target, after).calls);
    lemma_owned_released_exactly_once(m, before, after);
}

/// An observed target is never released: whatever is done to it, the trace
/// holds no free and no removal from the bus, and the target stays observed
/// and live.
pub proof fn lemma_observed_never_released(m: TargetModel, ops: Seq<Op>)
    requires
        m.provenance is Observed,
        !m.released,
    ensures
        free_count(run(m, ops).calls) == 0,
        remove_count(run(m, ops).calls) == 0,
        run(m, ops).target.provenance is Observed,
        !run(m, ops).target.released,
{
    lemma_life(m, ops);
}

/// A target keeps its client reference: once it refers to a client, it
/// refers to one after every operation, so the count of references to that
/// client cannot reach zero while the target is there.
pub proof fn lemma_client_reference_kept(m: TargetModel, ops: Seq<Op>)
    requires
        m.client is Some,
    ensures
        run(m, ops).target.client is Some,
{
    lemma_life(m, ops);
}

} // verus!
