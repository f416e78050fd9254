//! The writer-preferring reader-writer lock: once a writer waits, readers
//! that come later queue behind it.

use crate::error::LockError;
use crate::guard::{Owner, ReadGuard, WriteGuard};
use crate::protocol::LockEvent;
use crate::protected::Protected;
use crate::sync::{
    condvar_new, condvar_notify_all, state_created_with, state_get, state_held, state_lock,
    state_locked_from, state_new, state_set,
};
use std::sync::{Condvar, Mutex, MutexGuard, PoisonError};
use vstd::prelude::*;

verus! {

/// What the lock counts: the readers and writers inside their critical
/// sections, and the writers that wait for theirs.
pub struct Counts {
    pub readers: nat,
    pub writers: nat,
    pub waiting: nat,
}

/// A writer has to stay out while anybody is inside.
pub open spec fn writer_blocked(counts: Counts) -> bool {
    counts.readers > 0 || counts.writers > 0
}

/// A reader has to stay out while a writer is inside or waits.
pub open spec fn reader_blocked(counts: Counts) -> bool {
    counts.waiting > 0 || counts.writers > 0
}

/// Whether a caller may take the step `event` when the lock counts `counts`.
pub open spec fn counts_enabled(counts: Counts, event: LockEvent) -> bool {
    match event {
        LockEvent::ReaderStart => !reader_blocked(counts),
        LockEvent::ReaderFinish => counts.readers > 0,
        LockEvent::WriterArrive => true,
        LockEvent::WriterStart => counts.waiting > 0 && !writer_blocked(counts),
        LockEvent::WriterFinish => counts.writers > 0,
    }
}

/// What the lock counts after the step `event`.
pub open spec fn counts_next(counts: Counts, event: LockEvent) -> Counts {
    match event {
        LockEvent::ReaderStart => Counts { readers: counts.readers + 1, ..counts },
        LockEvent::ReaderFinish => Counts { readers: (counts.readers - 1) as nat, ..counts },
        LockEvent::WriterArrive => Counts { waiting: counts.waiting + 1, ..counts },
        LockEvent::WriterStart => Counts {
            waiting: (counts.waiting - 1) as nat,
            writers: counts.writers + 1,
            ..counts
        },
        LockEvent::WriterFinish => Counts { writers: (counts.writers - 1) as nat, ..counts },
    }
}

/// Whether the counts after `event` still fit the machine integers that hold
/// them.
pub open spec fn counts_fit(counts: Counts, event: LockEvent) -> bool {
    match event {
        LockEvent::ReaderStart => counts.readers < u32::MAX,
        LockEvent::WriterArrive => counts.waiting < u32::MAX,
        _ => true,
    }
}

/// Whether the step that led to `after` has to wake the callers that wait: a
/// writer that leaves wakes everybody, the last reader that leaves wakes the
/// writers.
pub open spec fn wakes(event: LockEvent, after: Counts) -> bool {
    match event {
        LockEvent::WriterFinish => true,
        LockEvent::ReaderFinish => after.readers == 0,
        _ => false,
    }
}

/// The bookkeeping of the lock, as it is kept behind the mutex. No value of
/// this type records a writer inside together with a reader.
#[derive(Clone, Copy, Debug)]
pub struct PriorityState {
    active_readers: u32,
    writer_active: bool,
    waiting_writers: u32,
}

impl View for PriorityState {
    type V = Counts;

    closed spec fn view(&self) -> Counts {
        Counts {
            readers: self.active_readers as nat,
            writers: if self.writer_active {
                1
            } else {
                0
            },
            waiting: self.waiting_writers as nat,
        }
    }
}

impl PriorityState {
    #[verifier::type_invariant]
    spec fn records_no_overlap(self) -> bool {
        !(self.writer_active && self.active_readers > 0)
    }

    /// The bookkeeping of a lock that nobody uses.
    pub fn new() -> (state: PriorityState)
        ensures
            state@ == (Counts { readers: 0, writers: 0, waiting: 0 }),
    {
        PriorityState { active_readers: 0, writer_active: false, waiting_writers: 0 }
    }

    /// The readers inside their critical sections.
    pub fn active_readers(&self) -> (n: u32)
        ensures
            n == self@.readers,
    {
        self.active_readers
    }

    /// Whether a writer is inside its critical section.
    pub fn writer_active(&self) -> (active: bool)
        ensures
            active == (self@.writers == 1),
            !active == (self@.writers == 0),
    {
        self.writer_active
    }

    /// The writers that wait for their critical section.
    pub fn waiting_writers(&self) -> (n: u32)
        ensures
            n == self@.waiting,
    {
        self.waiting_writers
    }

    /// Whether a reader has to block.
    pub fn reader_must_wait(&self) -> (blocked: bool)
        ensures
            blocked == reader_blocked(self@),
    {
        self.waiting_writers > 0 || self.writer_active
    }

    /// Whether a writer has to block.
    pub fn writer_must_wait(&self) -> (blocked: bool)
        ensures
            blocked == writer_blocked(self@),
    {
        self.active_readers > 0 || self.writer_active
    }

    /// The bookkeeping after the step `event`, or `None` where the step is
    /// not open to a caller or a counter would overflow.
    pub fn step(&self, event: LockEvent) -> (r: Option<PriorityState>)
        ensures
            counts_enabled(self@, event) && counts_fit(self@, event) ==> r.is_some()
                && r.unwrap()@ == counts_next(self@, event),
            !(counts_enabled(self@, event) && counts_fit(self@, event)) ==> r.is_none(),
    {
        proof {
            use_type_invariant(self);
        }
        match event {
            LockEvent::ReaderStart => {
                if self.reader_must_wait() || self.active_readers == u32::MAX {
                    None
                } else {
                    Some(
                        PriorityState {
                            active_readers: self.active_readers + 1,
                            writer_active: self.writer_active,
                            waiting_writers: self.waiting_writers,
                        },
                    )
                }
            },
            LockEvent::ReaderFinish => {
                if self.active_readers == 0 {
                    None
                } else {
                    Some(
                        PriorityState {
                            active_readers: self.active_readers - 1,
                            writer_active: self.writer_active,
                            waiting_writers: self.waiting_writers,
                        },
                    )
                }
            },
            LockEvent::WriterArrive => {
                if self.waiting_writers == u32::MAX {
                    None
                } else {
                    Some(
                        PriorityState {
                            active_readers: self.active_readers,
                            writer_active: self.writer_active,
                            waiting_writers: self.waiting_writers + 1,
                        },
                    )
                }
            },
            LockEvent::WriterStart => {
                if self.waiting_writers == 0 || self.writer_must_wait() {
                    None
                } else {
                    Some(
                        PriorityState {
                            active_readers: self.active_readers,
                            writer_active: true,
                            waiting_writers: self.waiting_writers - 1,
                        },
                    )
                }
            },
            LockEvent::WriterFinish => {
                if !self.writer_active {
                    None
                } else {
                    Some(
                        PriorityState {
                            active_readers: self.active_readers,
                            writer_active: false,
                            waiting_writers: self.waiting_writers,
                        },
                    )
                }
            },
        }
    }

    /// Whether the step `event`, which led to this bookkeeping, has to wake
    /// the callers that wait.
    pub fn must_wake(&self, event: LockEvent) -> (wake: bool)
        ensures
            wake == wakes(event, self@),
    {
        match event {
            LockEvent::WriterFinish => true,
            LockEvent::ReaderFinish => self.active_readers == 0,
            _ => false,
        }
    }
}

/// A reader-writer lock around an integer that lets waiting writers go before
/// readers.
pub struct WriterPriorityRwLock {
    state: Mutex<PriorityState>,
    condvar: Condvar,
    value: Protected,
}

impl WriterPriorityRwLock {
    /// The value the lock was created around.
    pub closed spec fn initial_value(&self) -> i32 {
        self.value.initial()
    }

    /// What the lock counted when it was created.
    pub closed spec fn initial_counts(&self) -> Counts {
        state_created_with(self.state)@
    }

    /// A lock around `value` that nobody uses.
    pub fn new(value: i32) -> (lock: WriterPriorityRwLock)
        ensures
            lock.initial_value() == value,
            lock.initial_counts() == (Counts { readers: 0, writers: 0, waiting: 0 }),
    {
        WriterPriorityRwLock {
            state: state_new(PriorityState::new()),
            condvar: condvar_new(),
            value: Protected::new(value),
        }
    }

    /// `Condvar::wait_while` on the lock's own condition variable, with the
    /// guard of its own bookkeeping: releases the guard and blocks until
    /// `reader_must_wait` is false of the bookkeeping, then returns the guard,
    /// held again. The error is the poison error of the mutex. The call does
    /// not return while a writer is inside or waits.
    #[verifier::external_body]
    fn block_reader<'a>(&'a self, guard: MutexGuard<'a, PriorityState>) -> (r: Result<
        MutexGuard<'a, PriorityState>,
        PoisonError<MutexGuard<'a, PriorityState>>,
    >)
        requires
            state_locked_from(guard) == self.state,
        ensures
            r matches Ok(woken) ==> !reader_blocked(state_held(woken)@) && state_locked_from(woken)
                == self.state,
    {
        self.condvar.wait_while(guard, |state| state.reader_must_wait())
    }

    /// `Condvar::wait_while` on the lock's own condition variable, with the
    /// guard of its own bookkeeping: releases the guard and blocks until
    /// `writer_must_wait` is false of the bookkeeping, then returns the guard,
    /// held again. The error is the poison error of the mutex. The call does
    /// not return while anybody is inside.
    #[verifier::external_body]
    fn block_writer<'a>(&'a self, guard: MutexGuard<'a, PriorityState>) -> (r: Result<
        MutexGuard<'a, PriorityState>,
        PoisonError<MutexGuard<'a, PriorityState>>,
    >)
        requires
            state_locked_from(guard) == self.state,
        ensures
            r matches Ok(woken) ==> !writer_blocked(state_held(woken)@) && state_locked_from(woken)
                == self.state,
    {
        self.condvar.wait_while(guard, |state| state.writer_must_wait())
    }

    /// Takes the step `event` on the bookkeeping behind `guard` and tells
    /// whether the blocked callers have to be woken; fails, and leaves the
    /// bookkeeping as it was, where the step is not open or a counter would
    /// overflow.
    fn step_behind(guard: &mut MutexGuard<PriorityState>, event: LockEvent) -> (r: Result<
        bool,
        LockError,
    >)
        ensures
            counts_enabled(state_held(*old(guard))@, event) && counts_fit(
                state_held(*old(guard))@,
                event,
            ) ==> state_held(*final(guard))@ == counts_next(state_held(*old(guard))@, event) && r
                == Ok::<bool, LockError>(wakes(event, state_held(*final(guard))@)),
            !(counts_enabled(state_held(*old(guard))@, event) && counts_fit(
                state_held(*old(guard))@,
                event,
            )) ==> state_held(*final(guard)) == state_held(*old(guard)) && r == Err::<
                bool,
                LockError,
            >(LockError::CounterOutOfRange),
            state_locked_from(*final(guard)) == state_locked_from(*old(guard)),
    {
        match state_get(guard).step(event) {
            Some(after) => {
                state_set(guard, after);
                Ok(after.must_wake(event))
            },
            None => Err(LockError::CounterOutOfRange),
        }
    }

    /// Waits until no writer is inside or waiting, then counts one more
    /// reader.
    ///
    /// Fails where the mutex is poisoned or the reader count cannot grow.
    fn admit_reader(&self) -> (r: Result<(), LockError>) {
        let guard = match state_lock(&self.state) {
            Ok(guard) => guard,
            Err(_) => {
                return Err(LockError::Poisoned);
            },
        };
        let mut guard = match self.block_reader(guard) {
            Ok(guard) => guard,
            Err(_) => {
                return Err(LockError::Poisoned);
            },
        };
        match WriterPriorityRwLock::step_behind(&mut guard, LockEvent::ReaderStart) {
            Ok(_) => Ok(()),
            Err(e) => Err(e),
        }
    }

    /// Announces a writer, waits until nobody is inside, then lets the
    /// writer in.
    ///
    /// Fails where the mutex is poisoned, the count of waiting writers cannot
    /// grow, or no writer is counted as waiting when the writer wakes.
    fn admit_writer(&self) -> (r: Result<(), LockError>) {
        let mut guard = match state_lock(&self.state) {
            Ok(guard) => guard,
            Err(_) => {
                return Err(LockError::Poisoned);
            },
        };
        match WriterPriorityRwLock::step_behind(&mut guard, LockEvent::WriterArrive) {
            Ok(_) => {},
            Err(e) => {
                return Err(e);
            },
        }
        let mut guard = match self.block_writer(guard) {
            Ok(guard) => guard,
            Err(_) => {
                return Err(LockError::Poisoned);
            },
        };
        match WriterPriorityRwLock::step_behind(&mut guard, LockEvent::WriterStart) {
            Ok(_) => Ok(()),
            Err(e) => Err(e),
        }
    }

    /// Takes the step `event`, by which a caller leaves its critical
    /// section, and wakes the blocked callers where the step asks for it.
    fn dismiss(&self, event: LockEvent) -> (r: Result<(), LockError>) {
        let mut guard = match state_lock(&self.state) {
            Ok(guard) => guard,
            Err(_) => {
                return Err(LockError::Poisoned);
            },
        };
        match WriterPriorityRwLock::step_behind(&mut guard, event) {
            Ok(wake) => {
                if wake {
                    condvar_notify_all(&self.condvar);
                }
                Ok(())
            },
            Err(e) => Err(e),
        }
    }

    /// Enters a critical section that is shared with other readers, and
    /// returns the protected value as it is then. Blocks while a writer is
    /// inside or waits.
    pub fn read(&self) -> (r: Result<ReadGuard<'_>, LockError>)
        ensures
            r matches Ok(guard) ==> guard.owner() == Owner::WriterPriority(self),
    {
        match self.admit_reader() {
            Ok(()) => {},
            Err(e) => {
                return Err(e);
            },
        }
        match self.value.load() {
            Ok(value) => Ok(ReadGuard::new(Owner::WriterPriority(self), value)),
            Err(e) => Err(e),
        }
    }

    /// Enters a critical section that nobody shares, and returns the
    /// protected value as it is then. Readers that come while the writer
    /// waits queue behind it. Blocks while anybody is inside.
    pub fn write(&self) -> (r: Result<WriteGuard<'_>, LockError>)
        ensures
            r matches Ok(guard) ==> guard.owner() == Owner::WriterPriority(self),
    {
        match self.admit_writer() {
            Ok(()) => {},
            Err(e) => {
                return Err(e);
            },
        }
        match self.value.load() {
            Ok(value) => Ok(WriteGuard::new(Owner::WriterPriority(self), value)),
            Err(e) => Err(e),
        }
    }

    /// Lets a reader out of its critical section; the last wakes the
    /// writers.
    pub(crate) fn finish_read(&self) -> (r: Result<(), LockError>) {
        self.dismiss(LockEvent::ReaderFinish)
    }

    /// Stores the writer's value, lets the writer out and wakes everybody.
    pub(crate) fn finish_write(&self, value: i32) -> (r: Result<(), LockError>) {
        match self.value.store(value) {
            Ok(()) => self.dismiss(LockEvent::WriterFinish),
            Err(e) => Err(e),
        }
    }
}

} // verus!
