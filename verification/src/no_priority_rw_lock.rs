//! The reader-writer lock without priority: readers and writers compete for
//! one permit, which the first reader takes for all readers and the last
//! reader gives back. A steady stream of readers can keep writers out.

use crate::error::LockError;
use crate::guard::{Owner, ReadGuard, WriteGuard};
use crate::semaphore::Semaphore;
use crate::protected::Protected;
use crate::sync::{
    counter_created_with, counter_get, counter_held, counter_lock, counter_locked_from,
    counter_new, counter_set,
};
use std::sync::{Mutex, MutexGuard};
use vstd::prelude::*;

verus! {

/// The reader that arrives takes the write permit when no reader is inside.
pub open spec fn takes_permit(readers: int) -> bool {
    readers == 0
}

/// The reader that leaves gives the write permit back when it is the last
/// one inside.
pub open spec fn returns_permit(readers: int) -> bool {
    readers == 1
}

/// The reader count after one more reader has arrived, and whether that
/// reader has to take the write permit; `None` where the count is negative or
/// cannot grow.
pub fn reader_arrives(readers: i32) -> (r: Option<(i32, bool)>)
    ensures
        0 <= readers < i32::MAX ==> r == Some(((readers + 1) as i32, takes_permit(readers as int))),
        !(0 <= readers < i32::MAX) ==> r is None,
{
    if 0 <= readers && readers < i32::MAX {
        Some((readers + 1, readers == 0))
    } else {
        None
    }
}

/// The reader count after one reader has left, and whether that reader has
/// to give the write permit back; `None` where no reader is inside.
pub fn reader_leaves(readers: i32) -> (r: Option<(i32, bool)>)
    ensures
        readers > 0 ==> r == Some(((readers - 1) as i32, returns_permit(readers as int))),
        readers <= 0 ==> r is None,
{
    if readers > 0 {
        Some((readers - 1, readers == 1))
    } else {
        None
    }
}

/// A reader-writer lock around an integer, without priority between readers
/// and writers.
pub struct NoPriorityRwLock {
    readers: Mutex<i32>,
    write_permit: Semaphore,
    value: Protected,
}

impl NoPriorityRwLock {
    /// The value the lock was created around.
    pub closed spec fn initial_value(&self) -> i32 {
        self.value.initial()
    }

    /// The number of readers the lock started with.
    pub closed spec fn initial_readers(&self) -> i32 {
        counter_created_with(self.readers)
    }

    /// The number of write permits the lock started with.
    pub closed spec fn initial_permits(&self) -> i32 {
        self.write_permit.initial_permits()
    }

    /// A lock around `value` that nobody uses: no reader inside, and the one
    /// write permit free.
    pub fn new(value: i32) -> (lock: NoPriorityRwLock)
        ensures
            lock.initial_value() == value,
            lock.initial_readers() == 0,
            lock.initial_permits() == 1,
    {
        NoPriorityRwLock {
            readers: counter_new(0),
            write_permit: Semaphore::new(1),
            value: Protected::new(value),
        }
    }

    /// Counts one more reader behind `guard`. A reader that finds others
    /// inside enters at once and cannot fail. The first reader takes the
    /// write permit for all of them: it enters when it has the permit, and
    /// the count stays as it was where the permit's mutex is poisoned.
    fn arrive_behind(&self, guard: &mut MutexGuard<i32>) -> (r: Result<(), LockError>)
        ensures
            0 < counter_held(*old(guard)) < i32::MAX ==> r is Ok,
            counter_held(*old(guard)) == 0 ==> r is Ok || r == Err::<(), LockError>(
                LockError::Poisoned,
            ),
            !(0 <= counter_held(*old(guard)) < i32::MAX) ==> r == Err::<(), LockError>(
                LockError::CounterOutOfRange,
            ),
            r is Ok ==> counter_held(*final(guard)) == counter_held(*old(guard)) + 1,
            r is Err ==> counter_held(*final(guard)) == counter_held(*old(guard)),
            counter_locked_from(*final(guard)) == counter_locked_from(*old(guard)),
    {
        match reader_arrives(counter_get(guard)) {
            Some((count, first)) => {
                if first {
                    match self.write_permit.wait() {
                        Ok(()) => {},
                        Err(e) => {
                            return Err(e);
                        },
                    }
                }
                counter_set(guard, count);
                Ok(())
            },
            None => Err(LockError::CounterOutOfRange),
        }
    }

    /// Counts one reader less behind `guard`. A reader that leaves others
    /// inside cannot fail. The last reader gives the write permit back, and
    /// the result is that of the semaphore; the count is lowered either way.
    /// Where no reader is counted, the count stays as it is.
    fn leave_behind(&self, guard: &mut MutexGuard<i32>) -> (r: Result<(), LockError>)
        ensures
            counter_held(*old(guard)) > 1 ==> r is Ok,
            counter_held(*old(guard)) > 0 ==> counter_held(*final(guard)) == counter_held(
                *old(guard),
            ) - 1,
            counter_held(*old(guard)) <= 0 ==> counter_held(*final(guard)) == counter_held(
                *old(guard),
            ) && r == Err::<(), LockError>(LockError::CounterOutOfRange),
            counter_locked_from(*final(guard)) == counter_locked_from(*old(guard)),
    {
        match reader_leaves(counter_get(guard)) {
            Some((count, last)) => {
                counter_set(guard, count);
                if last {
                    self.write_permit.signal()
                } else {
                    Ok(())
                }
            },
            None => Err(LockError::CounterOutOfRange),
        }
    }

    /// Enters a critical section that is shared with other readers, and
    /// returns the protected value as it is then. Blocks while a writer is
    /// inside.
    pub fn read(&self) -> (r: Result<ReadGuard<'_>, LockError>)
        ensures
            r matches Ok(guard) ==> guard.owner() == Owner::NoPriority(self),
    {
        let mut readers = match counter_lock(&self.readers) {
            Ok(guard) => guard,
            Err(_) => {
                return Err(LockError::Poisoned);
            },
        };
        match self.arrive_behind(&mut readers) {
            Ok(()) => {},
            Err(e) => {
                return Err(e);
            },
        }
        match self.value.load() {
            Ok(value) => Ok(ReadGuard::new(Owner::NoPriority(self), value)),
            Err(e) => Err(e),
        }
    }

    /// Enters a critical section that nobody shares, and returns the
    /// protected value as it is then. Blocks while anybody is inside.
    ///
    /// The only failure is a poisoned mutex.
    pub fn write(&self) -> (r: Result<WriteGuard<'_>, LockError>)
        ensures
            r matches Ok(guard) ==> guard.owner() == Owner::NoPriority(self),
            r matches Err(e) ==> e == LockError::Poisoned,
    {
        match self.write_permit.wait() {
            Ok(()) => {},
            Err(e) => {
                return Err(e);
            },
        }
        match self.value.load() {
            Ok(value) => Ok(WriteGuard::new(Owner::NoPriority(self), value)),
            Err(e) => Err(e),
        }
    }

    /// Lets a reader out of its critical section.
    pub(crate) fn finish_read(&self) -> (r: Result<(), LockError>) {
        match counter_lock(&self.readers) {
            Ok(mut readers) => self.leave_behind(&mut readers),
            Err(_) => Err(LockError::Poisoned),
        }
    }

    /// Stores the writer's value and gives the write permit back.
    pub(crate) fn finish_write(&self, value: i32) -> (r: Result<(), LockError>) {
        match self.value.store(value) {
            Ok(()) => self.write_permit.signal(),
            Err(e) => Err(e),
        }
    }
}

} // verus!
