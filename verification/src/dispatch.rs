//! What the dispatcher of a workload decides: in which order it pauses and
//! launches, and how the completion times of a run become its fairness
//! ratio. The caller owns the clock and the threads.

use crate::workload::{RWEntry, RWTime, ReaderWriterSequence, Role};
use vstd::prelude::*;

verus! {

/// One thing the dispatcher does on its own path.
#[derive(Clone, Copy, Debug, PartialEq, Eq, Structural)]
pub enum DispatchStep {
    /// Sleep for so many milliseconds.
    Pause(u64),
    /// Launch the task of the request at `index`, which does `work`.
    Launch { index: usize, work: RWTime },
}

/// The `k`-th thing the dispatcher does for `entries`: the pause of a request
/// comes right before its launch, on the dispatcher's own path, so that the
/// pauses add up from one request to the next.
pub open spec fn step_at(entries: Seq<RWEntry>, k: int) -> DispatchStep {
    if k % 2 == 0 {
        DispatchStep::Pause(entries[k / 2].enter_gap)
    } else {
        DispatchStep::Launch { index: (k / 2) as usize, work: entries[k / 2].rw_time }
    }
}

/// Everything the dispatcher does for `entries` before it waits for the
/// tasks, in order: two steps for each request, in the order of the requests.
pub open spec fn spec_schedule(entries: Seq<RWEntry>) -> Seq<DispatchStep> {
    Seq::new(2 * entries.len(), |k: int| step_at(entries, k))
}

/// The steps of the dispatcher for `sequence`.
pub fn schedule(sequence: &ReaderWriterSequence) -> (steps: Vec<DispatchStep>)
    requires
        2 * sequence@.len() <= usize::MAX,
    ensures
        steps@ == spec_schedule(sequence@),
{
    let entries = sequence.entries();
    let mut steps: Vec<DispatchStep> = Vec::new();
    let mut index: usize = 0;
    while index < entries.len()
        invariant
            index <= entries@.len(),
            entries@ == sequence@,
            steps@.len() == 2 * index,
            forall|k: int| 0 <= k < steps@.len() ==> steps@[k] == step_at(sequence@, k),
        decreases entries@.len() - index,
    {
        let entry = entries[index];
        steps.push(DispatchStep::Pause(entry.enter_gap));
        steps.push(DispatchStep::Launch { index, work: entry.rw_time });
        index = index + 1;
    }
    assert(steps@ =~= spec_schedule(sequence@));
    steps
}

/// The milliseconds for which the dispatcher has paused when it has taken
/// the first `k` of `steps`.
pub open spec fn paused_in(steps: Seq<DispatchStep>, k: int) -> int
    decreases k,
{
    if k <= 0 {
        0
    } else {
        paused_in(steps, k - 1) + match steps[k - 1] {
            DispatchStep::Pause(millis) => millis as int,
            DispatchStep::Launch { .. } => 0,
        }
    }
}

/// The milliseconds of pause that lie before the launch of the request at
/// `index`: its own pause and those of all requests before it.
pub open spec fn launch_offset(entries: Seq<RWEntry>, index: int) -> int
    recommends
        index < entries.len(),
    decreases index + 1,
{
    if index < 0 {
        0
    } else {
        launch_offset(entries, index - 1) + entries[index].enter_gap
    }
}

/// Pauses add up along the dispatcher's path: each request is launched, with
/// its own role and service time, after the pauses of all requests up to it,
/// not only after its own.
pub proof fn lemma_pauses_accumulate(entries: Seq<RWEntry>, index: int)
    requires
        0 <= index < entries.len() <= usize::MAX,
    ensures
        spec_schedule(entries)[2 * index + 1] matches DispatchStep::Launch { index: launched, work }
            && launched == index && work == entries[index].rw_time,
        paused_in(spec_schedule(entries), 2 * index + 1) == launch_offset(entries, index),
    decreases index,
{
    let steps = spec_schedule(entries);
    assert(steps[2 * index] == DispatchStep::Pause(entries[index].enter_gap));
    assert(paused_in(steps, 2 * index + 1) == paused_in(steps, 2 * index)
        + entries[index].enter_gap);
    if index > 0 {
        lemma_pauses_accumulate(entries, index - 1);
        assert(paused_in(steps, 2 * index) == paused_in(steps, 2 * index - 1));
    } else {
        assert(paused_in(steps, 0) == 0);
        assert(launch_offset(entries, -1) == 0);
    }
}

/// What a task reports when it is done: its role, and the time from the start
/// of the run to the end of its critical section, in nanoseconds.
#[derive(Clone, Copy, Debug, PartialEq, Eq, Structural)]
pub struct Completion {
    pub role: Role,
    pub elapsed: u64,
}

/// The completion time of the last writer after one more task has reported:
/// the later of what it was and the time of the task, if the task wrote.
pub open spec fn spec_record(last_writer: u64, done: Completion) -> u64 {
    if done.role == Role::Write && done.elapsed > last_writer {
        done.elapsed
    } else {
        last_writer
    }
}

/// Takes the report of one task into the completion time of the last writer.
pub fn record(last_writer: u64, done: Completion) -> (later: u64)
    ensures
        later == spec_record(last_writer, done),
{
    match done.role {
        Role::Write => if done.elapsed > last_writer {
            done.elapsed
        } else {
            last_writer
        },
        Role::Read => last_writer,
    }
}

/// The completion time of the last writer among `records`, taken in one
/// report after the other; zero where no writer has reported.
pub open spec fn last_writer_time(records: Seq<Completion>) -> u64
    decreases records.len(),
{
    if records.len() == 0 {
        0
    } else {
        spec_record(last_writer_time(records.drop_last()), records.last())
    }
}

/// The completion time of the last writer is the greatest completion time of
/// a writer, in whatever order the tasks have reported, and zero exactly when
/// no writer has reported a time above zero.
pub proof fn lemma_last_writer_is_latest(records: Seq<Completion>)
    ensures
        forall|i: int|
            0 <= i < records.len() && (#[trigger] records[i]).role == Role::Write ==> records[i].elapsed
                <= last_writer_time(records),
        last_writer_time(records) == 0 || exists|i: int|
            0 <= i < records.len() && (#[trigger] records[i]).role == Role::Write
                && records[i].elapsed == last_writer_time(records),
    decreases records.len(),
{
    if records.len() > 0 {
        let before = records.drop_last();
        lemma_last_writer_is_latest(before);
        assert(forall|i: int| 0 <= i < before.len() ==> before[i] == records[i]);
        if last_writer_time(records) != 0 {
            if last_writer_time(records) == last_writer_time(before) {
                let i = choose|i: int|
                    0 <= i < before.len() && (#[trigger] before[i]).role == Role::Write
                        && before[i].elapsed == last_writer_time(before);
                assert(records[i].role == Role::Write && records[i].elapsed == last_writer_time(
                    records,
                ));
            } else {
                let i = records.len() - 1;
                assert(records[i].role == Role::Write && records[i].elapsed == last_writer_time(
                    records,
                ));
            }
        }
    }
}

/// The completion time of the last writer among `records`.
pub fn last_writer_done(records: &Vec<Completion>) -> (last_writer: u64)
    ensures
        last_writer == last_writer_time(records@),
{
    let mut last_writer: u64 = 0;
    let mut index: usize = 0;
    while index < records.len()
        invariant
            index <= records@.len(),
            last_writer == last_writer_time(records@.take(index as int)),
        decreases records@.len() - index,
    {
        assert(records@.take(index + 1).drop_last() == records@.take(index as int));
        last_writer = record(last_writer, records[index]);
        index = index + 1;
    }
    assert(records@.take(index as int) == records@);
    last_writer
}

/// The fairness ratio of a run: the completion time of its last writer as a
/// share of its total time. The share is never more than the whole.
#[derive(Clone, Copy, Debug)]
pub struct FairnessRatio {
    last_writer: u64,
    total: u64,
}

impl FairnessRatio {
    #[verifier::type_invariant]
    spec fn within_whole(self) -> bool {
        self.last_writer <= self.total
    }

    /// The completion time of the last writer, in nanoseconds.
    pub closed spec fn numerator(self) -> u64 {
        self.last_writer
    }

    /// The total time of the run, in nanoseconds.
    pub closed spec fn denominator(self) -> u64 {
        self.total
    }

    /// The ratio in millionths, rounded down; zero for a run that took no
    /// time.
    pub open spec fn spec_parts_per_million(self) -> int {
        if self.denominator() == 0 {
            0
        } else {
            self.numerator() * 1_000_000 / (self.denominator() as int)
        }
    }

    /// The ratio of `last_writer` to `total`; `None` where the last writer
    /// would have finished after the run did.
    pub fn new(last_writer: u64, total: u64) -> (r: Option<FairnessRatio>)
        ensures
            last_writer <= total ==> r is Some && r.unwrap().numerator() == last_writer
                && r.unwrap().denominator() == total,
            last_writer > total ==> r is None,
    {
        if last_writer <= total {
            Some(FairnessRatio { last_writer, total })
        } else {
            None
        }
    }

    /// The completion time of the last writer, in nanoseconds; never more
    /// than the total time.
    pub fn last_writer(&self) -> (last_writer: u64)
        ensures
            last_writer == self.numerator(),
            last_writer <= self.denominator(),
    {
        proof {
            use_type_invariant(self);
        }
        self.last_writer
    }

    /// The total time of the run, in nanoseconds.
    pub fn total(&self) -> (total: u64)
        ensures
            total == self.denominator(),
    {
        self.total
    }

    /// The ratio in millionths, rounded down: between nothing and the whole.
    pub fn parts_per_million(&self) -> (parts: u32)
        ensures
            parts == self.spec_parts_per_million(),
            0 <= parts <= 1_000_000,
            self.numerator() == 0 ==> parts == 0,
            self.numerator() == self.denominator() && self.denominator() > 0 ==> parts
                == 1_000_000,
    {
        proof {
            use_type_invariant(self);
        }
        if self.total == 0 {
            0
        } else {
            let scaled: u128 = (self.last_writer as u128) * 1_000_000;
            let whole: u128 = self.total as u128;
            let parts: u128 = scaled / whole;
            assert(parts <= 1_000_000 && (self.last_writer == 0 ==> parts == 0) && (self.last_writer
                == self.total ==> parts == 1_000_000)) by (nonlinear_arith)
                requires
                    parts == (self.last_writer * 1_000_000) / (self.total as int),
                    0 <= self.last_writer <= self.total,
                    self.total > 0,
            ;
            parts as u32
        }
    }
}

/// The fairness ratio of a run whose tasks reported `records` and which took
/// `total` nanoseconds, measured after the last task was done; `None` where a
/// writer reports to have finished after the run did.
///
/// The ratio lies between nothing and the whole, and a run without writers
/// has the ratio nothing.
pub fn fairness_ratio(records: &Vec<Completion>, total: u64) -> (r: Option<FairnessRatio>)
    ensures
        last_writer_time(records@) <= total ==> r is Some && r.unwrap().numerator()
            == last_writer_time(records@) && r.unwrap().denominator() == total,
        last_writer_time(records@) > total ==> r is None,
        r matches Some(ratio) ==> 0 <= ratio.numerator() <= ratio.denominator(),
        r matches Some(ratio) ==> (forall|i: int|
            0 <= i < records@.len() ==> (#[trigger] records@[i]).role == Role::Read)
            ==> ratio.numerator() == 0,
{
    proof {
        lemma_last_writer_is_latest(records@);
    }
    FairnessRatio::new(last_writer_done(records), total)
}

} // verus!
