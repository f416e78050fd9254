//! The lock without priority as a state machine, and what holds of all its
//! runs.

use crate::no_priority_rw_lock::{returns_permit, takes_permit};
use crate::protocol::{exclusive, occurrences, LockEvent};
use crate::semaphore::{after_signal, after_wait, can_pass};
use vstd::prelude::*;

verus! {

/// The lock as its callers see it: the readers and writers inside their
/// critical sections, the permits left in the write semaphore, the protected
/// value, and the value that the writer inside found when it entered.
pub struct NoPriorityModel {
    pub readers: nat,
    pub writers: nat,
    pub permits: int,
    pub value: int,
    pub snapshot: int,
}

/// A lock that nobody uses, around `value`, with its one write permit.
pub open spec fn initial(value: int) -> NoPriorityModel {
    NoPriorityModel { readers: 0, writers: 0, permits: 1, value, snapshot: value }
}

/// Whether a caller may take the step `event`: whoever needs the write
/// permit passes when the semaphore lets a caller pass.
pub open spec fn enabled(state: NoPriorityModel, event: LockEvent) -> bool {
    match event {
        LockEvent::ReaderStart => takes_permit(state.readers as int) ==> can_pass(state.permits),
        LockEvent::ReaderFinish => state.readers > 0,
        LockEvent::WriterArrive => true,
        LockEvent::WriterStart => can_pass(state.permits),
        LockEvent::WriterFinish => state.writers > 0,
    }
}

/// The lock after the step `event`. A writer that begins to wait leaves no
/// trace; one that enters reads the value, and stores one more than it read
/// when it leaves.
pub open spec fn next(state: NoPriorityModel, event: LockEvent) -> NoPriorityModel {
    match event {
        LockEvent::ReaderStart => NoPriorityModel {
            readers: state.readers + 1,
            permits: if takes_permit(state.readers as int) {
                after_wait(state.permits)
            } else {
                state.permits
            },
            ..state
        },
        LockEvent::ReaderFinish => NoPriorityModel {
            readers: (state.readers - 1) as nat,
            permits: if returns_permit(state.readers as int) {
                after_signal(state.permits)
            } else {
                state.permits
            },
            ..state
        },
        LockEvent::WriterArrive => state,
        LockEvent::WriterStart => NoPriorityModel {
            writers: state.writers + 1,
            permits: after_wait(state.permits),
            snapshot: state.value,
            ..state
        },
        LockEvent::WriterFinish => NoPriorityModel {
            writers: (state.writers - 1) as nat,
            permits: after_signal(state.permits),
            value: state.snapshot + 1,
            ..state
        },
    }
}

/// The lock after the steps of `trace`, in order.
pub open spec fn state_after(state: NoPriorityModel, trace: Seq<LockEvent>) -> NoPriorityModel
    decreases trace.len(),
{
    if trace.len() == 0 {
        state
    } else {
        next(state_after(state, trace.drop_last()), trace.last())
    }
}

/// Every step of `trace` was open to its caller at the moment it was taken.
pub open spec fn valid(state: NoPriorityModel, trace: Seq<LockEvent>) -> bool
    decreases trace.len(),
{
    trace.len() == 0 || (valid(state, trace.drop_last()) && enabled(
        state_after(state, trace.drop_last()),
        trace.last(),
    ))
}

/// What holds of the lock at every moment of every run: the one permit is
/// in the semaphore, with the readers, or with the writer inside.
pub open spec fn consistent(state: NoPriorityModel, start: int, trace: Seq<LockEvent>) -> bool {
    &&& state.permits >= 0
    &&& state.permits + state.writers + (if state.readers > 0 {
        1int
    } else {
        0int
    }) == 1
    &&& state.writers == 1 ==> state.snapshot == state.value
    &&& state.value == start + occurrences(trace, LockEvent::WriterFinish)
}

/// Every run keeps the lock consistent.
pub proof fn lemma_runs_are_consistent(start: int, trace: Seq<LockEvent>)
    requires
        valid(initial(start), trace),
    ensures
        consistent(state_after(initial(start), trace), start, trace),
    decreases trace.len(),
{
    if trace.len() > 0 {
        lemma_runs_are_consistent(start, trace.drop_last());
    }
}

/// A run stays a run when it is cut short.
pub proof fn lemma_prefix_valid(state: NoPriorityModel, trace: Seq<LockEvent>, k: int)
    requires
        valid(state, trace),
        0 <= k <= trace.len(),
    ensures
        valid(state, trace.take(k)),
    decreases trace.len(),
{
    if k == trace.len() {
        assert(trace.take(k) == trace);
    } else {
        lemma_prefix_valid(state, trace.drop_last(), k);
        assert(trace.drop_last().take(k) == trace.take(k));
    }
}

/// Mutual exclusion: at no moment of any run, that is after any number `k`
/// of its steps, is a writer inside its critical section together with a
/// reader or with another writer.
pub proof fn lemma_mutual_exclusion(start: int, trace: Seq<LockEvent>, k: int)
    requires
        valid(initial(start), trace),
        0 <= k <= trace.len(),
    ensures
        exclusive(
            state_after(initial(start), trace.take(k)).readers,
            state_after(initial(start), trace.take(k)).writers,
        ),
{
    lemma_prefix_valid(initial(start), trace, k);
    lemma_runs_are_consistent(start, trace.take(k));
}

/// Readers share the lock: while a reader is inside, one more may enter
/// without a permit, however many are inside already.
pub proof fn lemma_readers_share(state: NoPriorityModel)
    requires
        state.readers > 0,
    ensures
        enabled(state, LockEvent::ReaderStart),
        next(state, LockEvent::ReaderStart).readers == state.readers + 1,
        next(state, LockEvent::ReaderStart).permits == state.permits,
{
}

/// Any number of readers can be inside at once: the run in which `n` readers
/// enter one after the other, none leaving, is a run of the lock.
pub proof fn lemma_readers_overlap(start: int, n: nat)
    ensures
        valid(initial(start), Seq::new(n, |i: int| LockEvent::ReaderStart)),
        state_after(initial(start), Seq::new(n, |i: int| LockEvent::ReaderStart)).readers == n,
        state_after(initial(start), Seq::new(n, |i: int| LockEvent::ReaderStart)).writers == 0,
    decreases n,
{
    let trace = Seq::new(n, |i: int| LockEvent::ReaderStart);
    if n > 0 {
        lemma_readers_overlap(start, (n - 1) as nat);
        assert(trace.drop_last() == Seq::new((n - 1) as nat, |i: int| LockEvent::ReaderStart));
        lemma_runs_are_consistent(start, trace.drop_last());
    }
}

/// No protection against starvation: in a run, while a reader is inside, no
/// writer may enter, and yet further readers may.
pub proof fn lemma_readers_keep_writers_out(start: int, trace: Seq<LockEvent>)
    requires
        valid(initial(start), trace),
        state_after(initial(start), trace).readers > 0,
    ensures
        !enabled(state_after(initial(start), trace), LockEvent::WriterStart),
        enabled(state_after(initial(start), trace), LockEvent::ReaderStart),
{
    lemma_runs_are_consistent(start, trace);
}

/// Counter consistency: when every writer stores one more than it found, the
/// protected value has grown by the number of writers that have left, whatever
/// the readers did in between.
pub proof fn lemma_counter_counts_writers(start: int, trace: Seq<LockEvent>)
    requires
        valid(initial(start), trace),
    ensures
        state_after(initial(start), trace).value == start + occurrences(
            trace,
            LockEvent::WriterFinish,
        ),
{
    lemma_runs_are_consistent(start, trace);
}

} // verus!
