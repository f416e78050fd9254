//! The writer-preferring lock as a state machine, and what holds of all its
//! runs.

use crate::protocol::{exclusive, occurrences, LockEvent};
use crate::writer_priority_rw_lock::{counts_enabled, counts_next, reader_blocked, Counts};
use vstd::prelude::*;

verus! {

/// The lock as its callers see it: what it counts, the protected value, and
/// the value that the writer inside found when it entered.
pub struct PriorityModel {
    pub counts: Counts,
    pub value: int,
    pub snapshot: int,
}

/// A lock that nobody uses, around `value`.
pub open spec fn initial(value: int) -> PriorityModel {
    PriorityModel { counts: Counts { readers: 0, writers: 0, waiting: 0 }, value, snapshot: value }
}

/// The lock after the step `event`: a writer that enters reads the value, and
/// stores one more than it read when it leaves.
pub open spec fn next(state: PriorityModel, event: LockEvent) -> PriorityModel {
    PriorityModel {
        counts: counts_next(state.counts, event),
        value: if event == LockEvent::WriterFinish {
            state.snapshot + 1
        } else {
            state.value
        },
        snapshot: if event == LockEvent::WriterStart {
            state.value
        } else {
            state.snapshot
        },
    }
}

/// The lock after the steps of `trace`, in order.
pub open spec fn state_after(state: PriorityModel, trace: Seq<LockEvent>) -> PriorityModel
    decreases trace.len(),
{
    if trace.len() == 0 {
        state
    } else {
        next(state_after(state, trace.drop_last()), trace.last())
    }
}

/// Every step of `trace` was open to its caller at the moment it was taken.
pub open spec fn valid(state: PriorityModel, trace: Seq<LockEvent>) -> bool
    decreases trace.len(),
{
    trace.len() == 0 || (valid(state, trace.drop_last()) && counts_enabled(
        state_after(state, trace.drop_last()).counts,
        trace.last(),
    ))
}

/// What holds of the lock at every moment of every run.
pub open spec fn consistent(state: PriorityModel, start: int, trace: Seq<LockEvent>) -> bool {
    &&& exclusive(state.counts.readers, state.counts.writers)
    &&& state.counts.writers == 1 ==> state.snapshot == state.value
    &&& state.counts.waiting + occurrences(trace, LockEvent::WriterStart) == occurrences(
        trace,
        LockEvent::WriterArrive,
    )
    &&& state.value == start + occurrences(trace, LockEvent::WriterFinish)
}

/// Every run keeps the lock consistent.
pub proof fn lemma_runs_are_consistent(start: int, trace: Seq<LockEvent>)
    requires
        valid(initial(start), trace),
    ensures
        consistent(state_after(initial(start), trace), start, trace),
    decreases trace.len(),
{
    if trace.len() > 0 {
        lemma_runs_are_consistent(start, trace.drop_last());
    }
}

/// A run stays a run when it is cut short.
pub proof fn lemma_prefix_valid(state: PriorityModel, trace: Seq<LockEvent>, k: int)
    requires
        valid(state, trace),
        0 <= k <= trace.len(),
    ensures
        valid(state, trace.take(k)),
    decreases trace.len(),
{
    if k == trace.len() {
        assert(trace.take(k) == trace);
    } else {
        lemma_prefix_valid(state, trace.drop_last(), k);
        assert(trace.drop_last().take(k) == trace.take(k));
    }
}

/// Mutual exclusion: at no moment of any run, that is after any number `k`
/// of its steps, is a writer inside its critical section together with a
/// reader or with another writer.
pub proof fn lemma_mutual_exclusion(start: int, trace: Seq<LockEvent>, k: int)
    requires
        valid(initial(start), trace),
        0 <= k <= trace.len(),
    ensures
        exclusive(
            state_after(initial(start), trace.take(k)).counts.readers,
            state_after(initial(start), trace.take(k)).counts.writers,
        ),
{
    lemma_prefix_valid(initial(start), trace, k);
    lemma_runs_are_consistent(start, trace.take(k));
}

/// Readers share the lock: while no writer is inside or waits, one more
/// reader may enter, however many are inside already.
pub proof fn lemma_readers_share(state: PriorityModel)
    requires
        state.counts.writers == 0,
        state.counts.waiting == 0,
    ensures
        counts_enabled(state.counts, LockEvent::ReaderStart),
        next(state, LockEvent::ReaderStart).counts.readers == state.counts.readers + 1,
        !reader_blocked(next(state, LockEvent::ReaderStart).counts),
{
}

/// Any number of readers can be inside at once: the run in which `n` readers
/// enter one after the other, none leaving, is a run of the lock.
pub proof fn lemma_readers_overlap(start: int, n: nat)
    ensures
        valid(initial(start), Seq::new(n, |i: int| LockEvent::ReaderStart)),
        state_after(initial(start), Seq::new(n, |i: int| LockEvent::ReaderStart)).counts == (Counts {
            readers: n,
            writers: 0,
            waiting: 0,
        }),
    decreases n,
{
    let trace = Seq::new(n, |i: int| LockEvent::ReaderStart);
    if n > 0 {
        lemma_readers_overlap(start, (n - 1) as nat);
        assert(trace.drop_last() == Seq::new((n - 1) as nat, |i: int| LockEvent::ReaderStart));
    }
}

/// Writers come first: while a writer waits, no reader may enter.
pub proof fn lemma_waiting_writer_bars_readers(state: PriorityModel)
    requires
        state.counts.waiting > 0,
    ensures
        !counts_enabled(state.counts, LockEvent::ReaderStart),
{
}

/// Writer-priority ordering: when a reader enters, as step `k` of a run,
/// every writer that began to wait before that step has entered before it:
/// as many writers have entered as have begun to wait.
pub proof fn lemma_writers_precede_later_readers(start: int, trace: Seq<LockEvent>, k: int)
    requires
        valid(initial(start), trace),
        0 <= k < trace.len(),
        trace[k] == LockEvent::ReaderStart,
    ensures
        occurrences(trace.take(k), LockEvent::WriterStart) == occurrences(
            trace.take(k),
            LockEvent::WriterArrive,
        ),
{
    lemma_prefix_valid(initial(start), trace, k + 1);
    let upto = trace.take(k + 1);
    assert(upto.drop_last() == trace.take(k));
    assert(upto.last() == trace[k]);
    lemma_prefix_valid(initial(start), trace, k);
    lemma_runs_are_consistent(start, trace.take(k));
}

/// Counter consistency: when every writer stores one more than it found, the
/// protected value has grown by the number of writers that have left, whatever
/// the readers did in between.
pub proof fn lemma_counter_counts_writers(start: int, trace: Seq<LockEvent>)
    requires
        valid(initial(start), trace),
    ensures
        state_after(initial(start), trace).value == start + occurrences(
            trace,
            LockEvent::WriterFinish,
        ),
{
    lemma_runs_are_consistent(start, trace);
}

/// A released writer is preferred: whenever a writer may enter, no reader
/// may.
pub proof fn lemma_writer_preferred(state: PriorityModel)
    requires
        counts_enabled(state.counts, LockEvent::WriterStart),
    ensures
        !counts_enabled(state.counts, LockEvent::ReaderStart),
{
}

/// One step of a run, with the caller that takes it.
pub struct Step {
    pub caller: int,
    pub event: LockEvent,
}

/// The steps of `run` without their callers.
pub open spec fn events(run: Seq<Step>) -> Seq<LockEvent> {
    Seq::new(run.len(), |i: int| run[i].event)
}

/// The writers that wait after the steps of `run`: those that have begun to
/// wait and have not entered since.
pub open spec fn waiting_after(run: Seq<Step>) -> Set<int>
    decreases run.len(),
{
    if run.len() == 0 {
        Set::empty()
    } else {
        let before = waiting_after(run.drop_last());
        match run.last().event {
            LockEvent::WriterArrive => before.insert(run.last().caller),
            LockEvent::WriterStart => before.remove(run.last().caller),
            _ => before,
        }
    }
}

/// Every writer keeps to its own order: it begins to wait only when it does
/// not wait already, and it enters only when it waits.
pub open spec fn writers_in_order(run: Seq<Step>) -> bool
    decreases run.len(),
{
    run.len() == 0 || (writers_in_order(run.drop_last()) && match run.last().event {
        LockEvent::WriterArrive => !waiting_after(run.drop_last()).contains(run.last().caller),
        LockEvent::WriterStart => waiting_after(run.drop_last()).contains(run.last().caller),
        _ => true,
    })
}

/// Writers keep to their order in every part of a run that starts with the
/// run.
pub proof fn lemma_prefix_in_order(run: Seq<Step>, k: int)
    requires
        writers_in_order(run),
        0 <= k <= run.len(),
    ensures
        writers_in_order(run.take(k)),
    decreases run.len(),
{
    if k == run.len() {
        assert(run.take(k) == run);
    } else {
        lemma_prefix_in_order(run.drop_last(), k);
        assert(run.drop_last().take(k) == run.take(k));
    }
}

/// The lock counts as many waiting writers as there are writers that wait.
pub proof fn lemma_lock_counts_waiting_writers(start: int, run: Seq<Step>)
    requires
        valid(initial(start), events(run)),
        writers_in_order(run),
    ensures
        waiting_after(run).finite(),
        waiting_after(run).len() == state_after(initial(start), events(run)).counts.waiting,
    decreases run.len(),
{
    if run.len() > 0 {
        assert(events(run).drop_last() == events(run.drop_last()));
        lemma_lock_counts_waiting_writers(start, run.drop_last());
    }
}

/// A writer that began to wait, as step `i`, and waits no longer after the
/// first `k` steps has entered in between.
pub proof fn lemma_who_waits_no_longer_has_entered(run: Seq<Step>, i: int, k: int)
    requires
        0 <= i < k <= run.len(),
        run[i].event == LockEvent::WriterArrive,
        !waiting_after(run.take(k)).contains(run[i].caller),
    ensures
        exists|j: int|
            i < j < k && (#[trigger] run[j]).event == LockEvent::WriterStart && run[j].caller
                == run[i].caller,
    decreases k,
{
    let upto = run.take(k);
    let before = run.take(k - 1);
    assert(upto.drop_last() == before);
    assert(upto.last() == run[k - 1]);
    if k == i + 1 {
        assert(waiting_after(upto).contains(run[i].caller));
    } else if waiting_after(before).contains(run[i].caller) {
        assert(run[k - 1].event == LockEvent::WriterStart && run[k - 1].caller == run[i].caller);
    } else {
        lemma_who_waits_no_longer_has_entered(run, i, k - 1);
    }
}

/// Writer-priority ordering, caller by caller: in every run, a writer that
/// begins to wait before a reader enters has entered its own critical
/// section before that reader enters.
pub proof fn lemma_waiting_writer_enters_first(start: int, run: Seq<Step>, i: int, k: int)
    requires
        valid(initial(start), events(run)),
        writers_in_order(run),
        0 <= i < k < run.len(),
        run[i].event == LockEvent::WriterArrive,
        run[k].event == LockEvent::ReaderStart,
    ensures
        exists|j: int|
            i < j < k && (#[trigger] run[j]).event == LockEvent::WriterStart && run[j].caller
                == run[i].caller,
{
    let upto = run.take(k);
    lemma_prefix_valid(initial(start), events(run), k + 1);
    assert(events(run).take(k + 1).drop_last() == events(upto));
    assert(events(run).take(k + 1).last() == LockEvent::ReaderStart);
    lemma_prefix_in_order(run, k);
    lemma_lock_counts_waiting_writers(start, upto);
    assert(waiting_after(upto).len() == 0);
    assert(!waiting_after(upto).contains(run[i].caller)) by {
        if waiting_after(upto).contains(run[i].caller) {
            assert(waiting_after(upto).remove(run[i].caller).len() + 1 == waiting_after(upto).len());
        }
    }
    lemma_who_waits_no_longer_has_entered(run, i, k);
}

} // verus!
