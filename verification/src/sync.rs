//! The blocking primitives of the standard library that the semaphore and the
//! locks are built from. Nothing in this file is proved: each function states
//! what the documentation of the standard library says of the call it makes.

use crate::writer_priority_rw_lock::PriorityState;
use std::sync::{Condvar, Mutex, MutexGuard, PoisonError};
use vstd::prelude::*;

verus! {

/// `std::sync::Mutex`, carried as an opaque value.
#[verifier::external_type_specification]
#[verifier::external_body]
#[verifier::reject_recursive_types(T)]
pub struct ExMutex<T: ?Sized>(Mutex<T>);

/// `std::sync::MutexGuard`, carried as an opaque value.
#[verifier::external_type_specification]
#[verifier::external_body]
#[verifier::reject_recursive_types(T)]
pub struct ExMutexGuard<'a, T: ?Sized + 'a>(MutexGuard<'a, T>);

/// `std::sync::PoisonError`, carried as an opaque value.
#[verifier::external_type_specification]
#[verifier::external_body]
#[verifier::reject_recursive_types(T)]
pub struct ExPoisonError<T>(PoisonError<T>);

/// `std::sync::Condvar`, carried as an opaque value.
#[verifier::external_type_specification]
#[verifier::external_body]
pub struct ExCondvar(Condvar);

/// The integer that a guard gives access to while it is held.
pub uninterp spec fn counter_held(guard: MutexGuard<i32>) -> i32;

/// The mutex that a guard was obtained from.
pub uninterp spec fn counter_locked_from(guard: MutexGuard<i32>) -> Mutex<i32>;

/// The integer that a mutex was created around.
pub uninterp spec fn counter_created_with(mutex: Mutex<i32>) -> i32;

/// `Mutex::new`: a mutex around `value`.
#[verifier::external_body]
pub(crate) fn counter_new(value: i32) -> (mutex: Mutex<i32>)
    ensures
        counter_created_with(mutex) == value,
{
    Mutex::new(value)
}

/// `Mutex::lock`: blocks until the mutex is free and returns its guard, or
/// the poison error if an earlier holder panicked. The guard belongs to the
/// mutex that was locked. The call does not return in a thread that already
/// holds the mutex: the callers in this crate take one guard of a mutex at a
/// time.
#[verifier::external_body]
pub(crate) fn counter_lock<'a>(mutex: &'a Mutex<i32>) -> (r: Result<
    MutexGuard<'a, i32>,
    PoisonError<MutexGuard<'a, i32>>,
>)
    ensures
        r matches Ok(guard) ==> counter_locked_from(guard) == *mutex,
{
    mutex.lock()
}

/// `Deref::deref` of `MutexGuard`: the integer behind the guard.
#[verifier::external_body]
pub(crate) fn counter_get(guard: &MutexGuard<i32>) -> (value: i32)
    ensures
        value == counter_held(*guard),
{
    **guard
}

/// `DerefMut::deref_mut` of `MutexGuard`: stores `value` behind the guard,
/// which stays a guard of the same mutex.
#[verifier::external_body]
pub(crate) fn counter_set(guard: &mut MutexGuard<i32>, value: i32)
    ensures
        counter_held(*final(guard)) == value,
        counter_locked_from(*final(guard)) == counter_locked_from(*old(guard)),
{
    **guard = value;
}

/// The bookkeeping that a guard gives access to while it is held.
pub uninterp spec fn state_held(guard: MutexGuard<PriorityState>) -> PriorityState;

/// The mutex that a guard was obtained from.
pub uninterp spec fn state_locked_from(guard: MutexGuard<PriorityState>) -> Mutex<PriorityState>;

/// The bookkeeping that a mutex was created around.
pub uninterp spec fn state_created_with(mutex: Mutex<PriorityState>) -> PriorityState;

/// `Mutex::new`: a mutex around `state`.
#[verifier::external_body]
pub(crate) fn state_new(state: PriorityState) -> (mutex: Mutex<PriorityState>)
    ensures
        state_created_with(mutex) == state,
{
    Mutex::new(state)
}

/// `Mutex::lock`, as `counter_lock`, for a mutex around the bookkeeping of a
/// lock.
#[verifier::external_body]
pub(crate) fn state_lock<'a>(mutex: &'a Mutex<PriorityState>) -> (r: Result<
    MutexGuard<'a, PriorityState>,
    PoisonError<MutexGuard<'a, PriorityState>>,
>)
    ensures
        r matches Ok(guard) ==> state_locked_from(guard) == *mutex,
{
    mutex.lock()
}

/// `Deref::deref` of `MutexGuard`: a copy of the bookkeeping behind the
/// guard.
#[verifier::external_body]
pub(crate) fn state_get(guard: &MutexGuard<PriorityState>) -> (state: PriorityState)
    ensures
        state == state_held(*guard),
{
    **guard
}

/// `DerefMut::deref_mut` of `MutexGuard`: stores `state` behind the guard,
/// which stays a guard of the same mutex.
#[verifier::external_body]
pub(crate) fn state_set(guard: &mut MutexGuard<PriorityState>, state: PriorityState)
    ensures
        state_held(*final(guard)) == state,
        state_locked_from(*final(guard)) == state_locked_from(*old(guard)),
{
    **guard = state;
}

/// `Condvar::new`: a condition variable with no waiters.
#[verifier::external_body]
pub(crate) fn condvar_new() -> Condvar {
    Condvar::new()
}

/// `Condvar::notify_all`: wakes every thread blocked on the condition
/// variable. Nothing is promised of the caller's own state.
#[verifier::external_body]
pub(crate) fn condvar_notify_all(condvar: &Condvar) {
    condvar.notify_all();
}

} // verus!
