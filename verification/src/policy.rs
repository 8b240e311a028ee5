//! Dump policies and the decision of when conversational context is persisted.
//!
//! Timestamps are plain milliseconds on the caller's monotonic clock, with 0
//! meaning the start of the session.

use vstd::prelude::*;

verus! {

/// Determines the policy of dumping chat context into the file.
#[derive(Debug, Clone)]
pub enum DumpPolicy {
    /// Never dump any change; the file always remains read-only.
    NeverDump,
    /// Every triggering event immediately persists the full current context.
    AutoDump,
    /// Persist only when the caller explicitly asks for a dump.
    DumpRelyRequest,
    /// Persist on a triggering event only when at least this many milliseconds
    /// have elapsed since the last successful dump.
    PeriodicDump(u64),
}

/// An occurrence that causes the dump policy to be re-evaluated.
#[derive(Debug, Clone, Copy, PartialEq, Eq, Structural)]
pub enum TriggerKind {
    /// A completion exchange finished successfully.
    CompletionExchange,
    /// The caller explicitly asked for the context to be persisted now.
    ExplicitFlush,
}

/// Whether a triggering event of kind `kind`, occurring at `now`, must persist
/// the context, given the policy and the time of the last successful dump.
pub open spec fn spec_should_dump(
    policy: DumpPolicy,
    last_dump: u64,
    kind: TriggerKind,
    now: u64,
) -> bool {
    match policy {
        DumpPolicy::NeverDump => false,
        DumpPolicy::AutoDump => true,
        DumpPolicy::DumpRelyRequest => kind == TriggerKind::ExplicitFlush,
        DumpPolicy::PeriodicDump(interval) => now >= last_dump && now - last_dump >= interval,
    }
}

/// Evaluates the dump policy on a triggering event.
pub fn dump_due(policy: &DumpPolicy, last_dump: u64, kind: TriggerKind, now: u64) -> (due: bool)
    ensures
        due == spec_should_dump(*policy, last_dump, kind, now),
{
    match policy {
        DumpPolicy::NeverDump => false,
        DumpPolicy::AutoDump => true,
        DumpPolicy::DumpRelyRequest => match kind {
            TriggerKind::ExplicitFlush => true,
            TriggerKind::CompletionExchange => false,
        },
        DumpPolicy::PeriodicDump(interval) => now >= last_dump && now - last_dump >= *interval,
    }
}

} // verus!
