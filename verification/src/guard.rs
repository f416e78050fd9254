//! What a caller holds while it is inside a critical section of either lock.

use crate::error::LockError;
use crate::no_priority_rw_lock::NoPriorityRwLock;
use crate::writer_priority_rw_lock::WriterPriorityRwLock;
use vstd::prelude::*;

verus! {

/// The lock that a guard belongs to.
pub enum Owner<'a> {
    /// A lock without priority.
    NoPriority(&'a NoPriorityRwLock),
    /// A lock that prefers writers.
    WriterPriority(&'a WriterPriorityRwLock),
}

/// Shared access to the protected value: the value as it was when the reader
/// entered. No writer changes it until the guard is released.
pub struct ReadGuard<'a> {
    owner: Owner<'a>,
    value: i32,
}

impl<'a> View for ReadGuard<'a> {
    type V = int;

    closed spec fn view(&self) -> int {
        self.value as int
    }
}

impl<'a> ReadGuard<'a> {
    /// The lock that the reader is inside.
    pub closed spec fn owner(&self) -> Owner<'a> {
        self.owner
    }

    pub(crate) fn new(owner: Owner<'a>, value: i32) -> (guard: ReadGuard<'a>)
        ensures
            guard@ == value,
            guard.owner() == owner,
    {
        ReadGuard { owner, value }
    }

    /// The protected value.
    pub fn value(&self) -> (value: i32)
        ensures
            value == self@,
    {
        self.value
    }

    /// Leaves the critical section.
    ///
    /// Fails where a mutex of the lock is poisoned, or where the lock counts
    /// no reader inside or cannot take the write permit back.
    pub fn release(self) -> (r: Result<(), LockError>)
        ensures
            r matches Err(e) ==> e == LockError::Poisoned || e == LockError::CounterOutOfRange,
    {
        match self.owner {
            Owner::NoPriority(lock) => lock.finish_read(),
            Owner::WriterPriority(lock) => lock.finish_read(),
        }
    }
}

/// Exclusive access to the protected value: the value as the writer found
/// it, and as the writer has changed it since. The lock takes the value over
/// when the guard is released.
pub struct WriteGuard<'a> {
    owner: Owner<'a>,
    value: i32,
}

impl<'a> View for WriteGuard<'a> {
    type V = int;

    closed spec fn view(&self) -> int {
        self.value as int
    }
}

impl<'a> WriteGuard<'a> {
    /// The lock that the writer is inside.
    pub closed spec fn owner(&self) -> Owner<'a> {
        self.owner
    }

    pub(crate) fn new(owner: Owner<'a>, value: i32) -> (guard: WriteGuard<'a>)
        ensures
            guard@ == value,
            guard.owner() == owner,
    {
        WriteGuard { owner, value }
    }

    /// The protected value.
    pub fn value(&self) -> (value: i32)
        ensures
            value == self@,
    {
        self.value
    }

    /// Replaces the protected value.
    pub fn set(&mut self, value: i32)
        ensures
            final(self)@ == value,
            final(self).owner() == old(self).owner(),
    {
        self.value = value;
    }

    /// Adds one to the protected value and returns the new value; where the
    /// value is the largest there is, leaves it and returns `None`.
    pub fn increment(&mut self) -> (r: Option<i32>)
        ensures
            old(self)@ < i32::MAX ==> final(self)@ == old(self)@ + 1 && r == Some(
                (old(self)@ + 1) as i32,
            ),
            old(self)@ == i32::MAX ==> final(self)@ == old(self)@ && r is None,
            final(self).owner() == old(self).owner(),
    {
        if self.value < i32::MAX {
            self.value = self.value + 1;
            Some(self.value)
        } else {
            None
        }
    }

    /// Hands the value to the lock and leaves the critical section.
    ///
    /// Fails where a mutex of the lock is poisoned, or where the lock counts
    /// no writer inside or cannot take the write permit back.
    pub fn release(self) -> (r: Result<(), LockError>)
        ensures
            r matches Err(e) ==> e == LockError::Poisoned || e == LockError::CounterOutOfRange,
    {
        match self.owner {
            Owner::NoPriority(lock) => lock.finish_write(self.value),
            Owner::WriterPriority(lock) => lock.finish_write(self.value),
        }
    }
}

} // verus!
