//! The persistence protocol and its laws.
//!
//! A driver that owns a session handles a triggering event by calling
//! `Completion::on_trigger`, replacing the file's contents with the returned
//! text when there is one, and acknowledging a successful write with
//! `Completion::record_dump`. `apply_trigger` is that protocol written out
//! over plain values: one evaluation, at most one write, per event;
//! `run_triggers` is a whole history of events. The lemmas state what every
//! such history does to the persisted file under each policy.

use vstd::prelude::*;
use crate::codec::encode_lines;
use crate::policy::DumpPolicy;
use crate::policy::TriggerKind;
use crate::policy::spec_should_dump;

verus! {

/// One triggering event as the driver sees it: its kind, its timestamp, the
/// context at that moment, and whether the write (if the policy asked for
/// one) succeeded.
pub struct TriggerRecord {
    pub kind: TriggerKind,
    pub now: u64,
    pub context: Seq<Seq<char>>,
    pub write_ok: bool,
}

/// What persistence state a driver carries: the time of the last successful
/// dump and the contents of the persisted file, `None` while no file exists.
pub struct PersistState {
    pub last_dump: u64,
    pub file: Option<Seq<char>>,
}

/// Handling of one triggering event: evaluate the policy once; on a due and
/// successful write, replace the whole file with the encoded context and
/// advance `last_dump` to the event's time; on a failed write
/// (`PersistenceError`) or a skipped one, change nothing.
pub open spec fn apply_trigger(
    policy: DumpPolicy,
    st: PersistState,
    r: TriggerRecord,
) -> PersistState {
    if spec_should_dump(policy, st.last_dump, r.kind, r.now) && r.write_ok {
        PersistState { last_dump: r.now, file: Some(encode_lines(r.context)) }
    } else {
        st
    }
}

/// A whole history of triggering events, oldest first.
pub open spec fn run_triggers(
    policy: DumpPolicy,
    st: PersistState,
    rs: Seq<TriggerRecord>,
) -> PersistState
    decreases rs.len(),
{
    if rs.len() == 0 {
        st
    } else {
        run_triggers(policy, apply_trigger(policy, st, rs[0]), rs.drop_first())
    }
}

/// Under `NeverDump` no history of events, whatever its kinds, timestamps
/// and outcomes, ever touches the persisted file or the last-dump time.
pub proof fn lemma_never_dump_preserves_file(st: PersistState, rs: Seq<TriggerRecord>)
    ensures
        run_triggers(DumpPolicy::NeverDump, st, rs) == st,
    decreases rs.len(),
{
    if rs.len() > 0 {
        assert(apply_trigger(DumpPolicy::NeverDump, st, rs[0]) == st);
        lemma_never_dump_preserves_file(st, rs.drop_first());
    }
}

/// Under `AutoDump` every triggering event whose write succeeds leaves the
/// file holding exactly the full context of that moment — written by this
/// event, once — and advances the last-dump time to the event's time.
pub proof fn lemma_auto_dump_after_event(st: PersistState, r: TriggerRecord)
    requires
        r.write_ok,
    ensures
        apply_trigger(DumpPolicy::AutoDump, st, r).file == Some(encode_lines(r.context)),
        apply_trigger(DumpPolicy::AutoDump, st, r).last_dump == r.now,
{
}

/// Under `AutoDump`, after any nonempty history of successfully written
/// events, the file holds exactly the context of the latest event.
pub proof fn lemma_auto_dump_run(st: PersistState, rs: Seq<TriggerRecord>)
    requires
        rs.len() > 0,
        forall|i: int| 0 <= i < rs.len() ==> (#[trigger] rs[i]).write_ok,
    ensures
        run_triggers(DumpPolicy::AutoDump, st, rs).file == Some(encode_lines(rs.last().context)),
        run_triggers(DumpPolicy::AutoDump, st, rs).last_dump == rs.last().now,
    decreases rs.len(),
{
    let st1 = apply_trigger(DumpPolicy::AutoDump, st, rs[0]);
    if rs.len() == 1 {
        assert(rs.drop_first().len() == 0);
        assert(rs.last() == rs[0]);
    } else {
        lemma_auto_dump_run(st1, rs.drop_first());
        assert(rs.drop_first().last() == rs.last());
    }
}

proof fn lemma_run_push(policy: DumpPolicy, st: PersistState, rs: Seq<TriggerRecord>, r: TriggerRecord)
    ensures
        run_triggers(policy, st, rs.push(r)) == apply_trigger(
            policy,
            run_triggers(policy, st, rs),
            r,
        ),
    decreases rs.len(),
{
    if rs.len() == 0 {
        assert(rs.push(r).drop_first() =~= Seq::<TriggerRecord>::empty());
        assert(rs.push(r)[0] == r);
        assert(run_triggers(policy, st, rs) == st);
        assert(run_triggers(policy, apply_trigger(policy, st, r), Seq::<TriggerRecord>::empty())
            == apply_trigger(policy, st, r));
    } else {
        assert(rs.push(r)[0] == rs[0]);
        assert(rs.push(r).drop_first() =~= rs.drop_first().push(r));
        lemma_run_push(policy, apply_trigger(policy, st, rs[0]), rs.drop_first(), r);
    }
}

/// Under `PeriodicDump(interval)`, at any point of any history: the next
/// event changes the persisted state if and only if its write succeeds and
/// at least `interval` milliseconds have elapsed since the last successful
/// dump of the history so far (the session's start counting as time 0); and
/// when it does, the file becomes exactly that event's context and the
/// last-dump time becomes that event's time.
pub proof fn lemma_periodic_dump_along_history(
    interval: u64,
    st: PersistState,
    rs: Seq<TriggerRecord>,
    i: int,
)
    requires
        0 <= i < rs.len(),
    ensures
        run_triggers(DumpPolicy::PeriodicDump(interval), st, rs.take(i + 1)) == apply_trigger(
            DumpPolicy::PeriodicDump(interval),
            run_triggers(DumpPolicy::PeriodicDump(interval), st, rs.take(i)),
            rs[i],
        ),
        run_triggers(DumpPolicy::PeriodicDump(interval), st, rs.take(i + 1)) != run_triggers(
            DumpPolicy::PeriodicDump(interval),
            st,
            rs.take(i),
        ) ==> {
            let before = run_triggers(DumpPolicy::PeriodicDump(interval), st, rs.take(i));
            &&& rs[i].write_ok
            &&& rs[i].now >= before.last_dump
            &&& rs[i].now - before.last_dump >= interval
            &&& run_triggers(DumpPolicy::PeriodicDump(interval), st, rs.take(i + 1))
                == (PersistState { last_dump: rs[i].now, file: Some(encode_lines(rs[i].context)) })
        },
{
    assert(rs.take(i + 1) =~= rs.take(i).push(rs[i]));
    lemma_run_push(DumpPolicy::PeriodicDump(interval), st, rs.take(i), rs[i]);
}

/// Under `PeriodicDump(interval)` a triggering event dumps if and only if at
/// least `interval` milliseconds have elapsed since the last successful dump
/// (with the session's start counting as time 0), and the last-dump time
/// advances exactly on an actual, successful write.
pub proof fn lemma_periodic_dump_iff(interval: u64, st: PersistState, r: TriggerRecord)
    ensures
        spec_should_dump(DumpPolicy::PeriodicDump(interval), st.last_dump, r.kind, r.now) <==> (
        r.now >= st.last_dump && r.now - st.last_dump >= interval),
        (spec_should_dump(DumpPolicy::PeriodicDump(interval), st.last_dump, r.kind, r.now)
            && r.write_ok) ==> apply_trigger(DumpPolicy::PeriodicDump(interval), st, r)
            == (PersistState { last_dump: r.now, file: Some(encode_lines(r.context)) }),
        !(spec_should_dump(DumpPolicy::PeriodicDump(interval), st.last_dump, r.kind, r.now)
            && r.write_ok) ==> apply_trigger(DumpPolicy::PeriodicDump(interval), st, r) == st,
{
}

/// Under every policy, the last-dump time moves only when the policy asked
/// for a dump and the write succeeded; a skipped or failed write leaves both
/// the file and the last-dump time exactly where they were.
pub proof fn lemma_last_dump_advances_only_on_write(
    policy: DumpPolicy,
    st: PersistState,
    r: TriggerRecord,
)
    ensures
        apply_trigger(policy, st, r) != st ==> (spec_should_dump(
            policy,
            st.last_dump,
            r.kind,
            r.now,
        ) && r.write_ok),
        !(spec_should_dump(policy, st.last_dump, r.kind, r.now) && r.write_ok) ==> apply_trigger(
            policy,
            st,
            r,
        ) == st,
{
}

} // verus!
