//! A counting semaphore: a permit count behind a mutex, and a condition
//! variable on which callers block while no permit is available.

use crate::error::LockError;
use crate::sync::{
    condvar_new, condvar_notify_all, counter_created_with, counter_get, counter_held,
    counter_lock, counter_locked_from, counter_new, counter_set,
};
use std::sync::{Condvar, Mutex, MutexGuard, PoisonError};
use vstd::prelude::*;

verus! {

/// A caller may pass `wait` exactly when a permit is available.
pub open spec fn can_pass(count: int) -> bool {
    count > 0
}

/// The permit count after a caller has passed `wait`.
pub open spec fn after_wait(count: int) -> int {
    count - 1
}

/// The permit count after a `signal`.
pub open spec fn after_signal(count: int) -> int {
    count + 1
}

/// Whether a caller that finds `count` permits has to block.
pub fn must_wait(count: i32) -> (blocked: bool)
    ensures
        blocked == !can_pass(count as int),
{
    count <= 0
}

/// Takes one permit out of `count`.
pub fn take_permit(count: i32) -> (left: i32)
    requires
        can_pass(count as int),
    ensures
        left == after_wait(count as int),
{
    count - 1
}

/// Puts one permit back into `count`; `None` when the count is at the top of
/// its range and cannot grow.
pub fn return_permit(count: i32) -> (grown: Option<i32>)
    ensures
        count < i32::MAX ==> grown == Some((count + 1) as i32),
        count == i32::MAX ==> grown is None,
        grown matches Some(n) ==> n == after_signal(count as int),
{
    if count < i32::MAX {
        Some(count + 1)
    } else {
        None
    }
}

/// What a caller did to the permit count.
#[derive(Clone, Copy, Debug, PartialEq, Eq, Structural)]
pub enum PermitEvent {
    /// A `wait` returned, with one permit.
    Taken,
    /// A `signal` put one permit back.
    Returned,
}

/// The permit count after the events of `trace`, in order, starting from
/// `count`.
pub open spec fn permits_after(count: int, trace: Seq<PermitEvent>) -> int
    decreases trace.len(),
{
    if trace.len() == 0 {
        count
    } else {
        let before = permits_after(count, trace.drop_last());
        match trace.last() {
            PermitEvent::Taken => after_wait(before),
            PermitEvent::Returned => after_signal(before),
        }
    }
}

/// Every `Taken` of `trace` happened while a permit was available.
pub open spec fn permitted(count: int, trace: Seq<PermitEvent>) -> bool
    decreases trace.len(),
{
    trace.len() == 0 || (permitted(count, trace.drop_last()) && (trace.last()
        == PermitEvent::Taken ==> can_pass(permits_after(count, trace.drop_last()))))
}

/// The permits taken and not yet returned by the end of `trace`.
pub open spec fn outstanding(trace: Seq<PermitEvent>) -> int
    decreases trace.len(),
{
    if trace.len() == 0 {
        0
    } else {
        match trace.last() {
            PermitEvent::Taken => outstanding(trace.drop_last()) + 1,
            PermitEvent::Returned => outstanding(trace.drop_last()) - 1,
        }
    }
}

/// A semaphore that starts with a non-negative count never shows a negative
/// count to a caller that passed `wait`, and never has more permits
/// outstanding than it started with: the outstanding permits and the count
/// always add up to the initial count.
pub proof fn lemma_permits_conserved(count: int, trace: Seq<PermitEvent>)
    requires
        count >= 0,
        permitted(count, trace),
    ensures
        permits_after(count, trace) >= 0,
        outstanding(trace) + permits_after(count, trace) == count,
        outstanding(trace) <= count,
    decreases trace.len(),
{
    if trace.len() > 0 {
        lemma_permits_conserved(count, trace.drop_last());
    }
}

/// A blocking counter of permits.
pub struct Semaphore {
    count: Mutex<i32>,
    condvar: Condvar,
}

impl Semaphore {
    /// The number of permits the semaphore started with.
    pub closed spec fn initial_permits(&self) -> i32 {
        counter_created_with(self.count)
    }

    /// A semaphore that starts with `count` permits.
    pub fn new(count: i32) -> (semaphore: Semaphore)
        ensures
            semaphore.initial_permits() == count,
    {
        Semaphore { count: counter_new(count), condvar: condvar_new() }
    }

    /// `Condvar::wait_while` on the semaphore's own condition variable, with
    /// the guard of its own count: releases the guard and blocks until
    /// `must_wait` is false of the count, then returns the guard, held again.
    /// The error is the poison error of the mutex. The call does not return
    /// while no permit arrives.
    #[verifier::external_body]
    fn block_until_permit<'a>(&'a self, guard: MutexGuard<'a, i32>) -> (r: Result<
        MutexGuard<'a, i32>,
        PoisonError<MutexGuard<'a, i32>>,
    >)
        requires
            counter_locked_from(guard) == self.count,
        ensures
            r matches Ok(woken) ==> can_pass(counter_held(woken) as int) && counter_locked_from(
                woken,
            ) == self.count,
    {
        self.condvar.wait_while(guard, |count| must_wait(*count))
    }

    /// Takes one permit out of the count behind `guard`.
    fn take_behind(guard: &mut MutexGuard<i32>)
        requires
            can_pass(counter_held(*old(guard)) as int),
        ensures
            counter_held(*final(guard)) == after_wait(counter_held(*old(guard)) as int),
            counter_locked_from(*final(guard)) == counter_locked_from(*old(guard)),
    {
        let left = take_permit(counter_get(guard));
        counter_set(guard, left);
    }

    /// Puts one permit back into the count behind `guard` and tells whether
    /// the count is positive then, so that the blocked callers have to be
    /// woken; fails, and leaves the count as it was, where it cannot grow.
    fn return_behind(guard: &mut MutexGuard<i32>) -> (wake: Result<bool, LockError>)
        ensures
            counter_held(*old(guard)) < i32::MAX ==> counter_held(*final(guard)) == after_signal(
                counter_held(*old(guard)) as int,
            ) && wake == Ok::<bool, LockError>(can_pass(counter_held(*final(guard)) as int)),
            counter_held(*old(guard)) == i32::MAX ==> counter_held(*final(guard)) == counter_held(
                *old(guard),
            ) && wake == Err::<bool, LockError>(LockError::CounterOutOfRange),
            counter_locked_from(*final(guard)) == counter_locked_from(*old(guard)),
    {
        match return_permit(counter_get(guard)) {
            Some(grown) => {
                counter_set(guard, grown);
                Ok(!must_wait(grown))
            },
            None => Err(LockError::CounterOutOfRange),
        }
    }

    /// Blocks until a permit is available and takes it: the caller returns
    /// past a positive count, which it leaves one lower.
    ///
    /// The only failure is a poisoned mutex.
    pub fn wait(&self) -> (r: Result<(), LockError>)
        ensures
            r matches Err(e) ==> e == LockError::Poisoned,
    {
        let guard = match counter_lock(&self.count) {
            Ok(guard) => guard,
            Err(_) => {
                return Err(LockError::Poisoned);
            },
        };
        match self.block_until_permit(guard) {
            Ok(mut guard) => {
                Semaphore::take_behind(&mut guard);
                Ok(())
            },
            Err(_) => Err(LockError::Poisoned),
        }
    }

    /// Puts one permit back and, if the count is then positive, wakes every
    /// blocked caller so that each looks at the count again.
    ///
    /// Fails, and leaves the count as it was, where the mutex is poisoned or
    /// the count cannot grow.
    pub fn signal(&self) -> (r: Result<(), LockError>)
        ensures
            r matches Err(e) ==> e == LockError::Poisoned || e == LockError::CounterOutOfRange,
    {
        let mut guard = match counter_lock(&self.count) {
            Ok(guard) => guard,
            Err(_) => {
                return Err(LockError::Poisoned);
            },
        };
        match Semaphore::return_behind(&mut guard) {
            Ok(wake) => {
                if wake {
                    condvar_notify_all(&self.condvar);
                }
                Ok(())
            },
            Err(e) => Err(e),
        }
    }

    /// Blocks until a permit is available, and leaves it where it is.
    ///
    /// The only failure is a poisoned mutex.
    pub fn pseudowait(&self) -> (r: Result<(), LockError>)
        ensures
            r matches Err(e) ==> e == LockError::Poisoned,
    {
        let guard = match counter_lock(&self.count) {
            Ok(guard) => guard,
            Err(_) => {
                return Err(LockError::Poisoned);
            },
        };
        match self.block_until_permit(guard) {
            Ok(_) => Ok(()),
            Err(_) => Err(LockError::Poisoned),
        }
    }
}

} // verus!
