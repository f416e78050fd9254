//! The events by which callers move a reader-writer lock, shared by the
//! models of both policies.

use vstd::prelude::*;

verus! {

/// One step of a caller of a reader-writer lock.
#[derive(Clone, Copy, Debug, PartialEq, Eq, Structural)]
pub enum LockEvent {
    /// A reader enters its critical section.
    ReaderStart,
    /// A reader leaves its critical section.
    ReaderFinish,
    /// A writer announces itself and begins to wait.
    WriterArrive,
    /// A waiting writer enters its critical section.
    WriterStart,
    /// A writer leaves its critical section.
    WriterFinish,
}

/// How often `event` occurs in `trace`.
pub open spec fn occurrences(trace: Seq<LockEvent>, event: LockEvent) -> nat
    decreases trace.len(),
{
    if trace.len() == 0 {
        0
    } else if trace.last() == event {
        occurrences(trace.drop_last(), event) + 1
    } else {
        occurrences(trace.drop_last(), event)
    }
}

/// Mutual exclusion of a moment at which `readers` readers and `writers`
/// writers are inside their critical sections: a writer is inside alone.
pub open spec fn exclusive(readers: nat, writers: nat) -> bool {
    writers <= 1 && (writers == 1 ==> readers == 0)
}

} // verus!
